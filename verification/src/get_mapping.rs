//! Reading the target index's mapping.

use vstd::prelude::*;

use crate::elasticsearch::Elasticsearch;

verus! {

/// A prepared request for the target index's mapping.
#[derive(Debug)]
pub struct ElasticsearchGetMappingRequest(pub Elasticsearch);

impl ElasticsearchGetMappingRequest {
    /// A mapping request against the target index.
    pub fn new(elasticsearch: &Elasticsearch) -> (r: ElasticsearchGetMappingRequest)
        ensures
            r.0 == *elasticsearch,
    {
        ElasticsearchGetMappingRequest(elasticsearch.duplicate())
    }

    /// The URL the request reads: the index's `_mapping` endpoint.
    pub fn url(&self) -> (r: String)
        ensures
            r@ == self.0.options.url@ + self.0.options.index_name@ + "/_mapping"@,
    {
        let mut s = self.0.base_url();
        s.append("/_mapping");
        s
    }
}

impl Elasticsearch {
    /// A mapping request against the target index.
    pub fn get_mapping(&self) -> (r: ElasticsearchGetMappingRequest)
        ensures
            r.0 == *self,
    {
        ElasticsearchGetMappingRequest::new(self)
    }
}

} // verus!
