//! The client handle: one target index and the URLs requests against it use.

use vstd::prelude::*;

use crate::options::ZDBIndexOptions;

verus! {

/// The HTTP method of an arbitrary request against the server.
#[allow(non_camel_case_types)]
#[derive(Debug, PartialEq, Eq, Structural, Clone, Copy)]
pub enum ArbitraryRequestType {
    GET,
    POST,
    PUT,
    DELETE,
}

/// A handle on one Elasticsearch index, cloned cheaply per request.
#[derive(Debug)]
pub struct Elasticsearch {
    /// The target index's options.
    pub options: ZDBIndexOptions,
}

impl Elasticsearch {
    /// A handle from already-resolved index options.
    pub fn from_options(options: ZDBIndexOptions) -> (r: Elasticsearch)
        ensures
            r.options == options,
    {
        Elasticsearch { options }
    }

    /// An equal copy of this handle, for one more request object.
    pub fn duplicate(&self) -> (r: Elasticsearch)
        ensures
            r == *self,
    {
        Elasticsearch { options: self.options.duplicate() }
    }

    /// Whether the target index shadows another index.
    pub fn is_shadow_index(&self) -> (r: bool)
        ensures
            r == self.options.is_shadow,
    {
        self.options.is_shadow
    }

    /// The server's base URL, with its trailing slash.
    pub fn url(&self) -> (r: String)
        ensures
            r@ == self.options.url@,
    {
        self.options.url.clone()
    }

    /// The URL of the target index.
    pub fn base_url(&self) -> (r: String)
        ensures
            r@ == self.options.url@ + self.options.index_name@,
    {
        let mut s = self.options.url.clone();
        s.append(self.options.index_name.as_str());
        s
    }

    /// The URL of the target index's alias.
    pub fn alias_url(&self) -> (r: String)
        ensures
            r@ == self.options.url@ + self.options.alias@,
    {
        let mut s = self.options.url.clone();
        s.append(self.options.alias.as_str());
        s
    }

    /// The name of the target index.
    pub fn index_name(&self) -> (r: &str)
        ensures
            r@ == self.options.index_name@,
    {
        self.options.index_name.as_str()
    }

    /// The alias of the target index.
    pub fn alias_name(&self) -> (r: &str)
        ensures
            r@ == self.options.alias@,
    {
        self.options.alias.as_str()
    }

    /// The type name used for documents.
    pub fn doc_type_name(&self) -> (r: String)
        ensures
            r@ == self.options.doc_type_name@,
    {
        self.options.doc_type_name.clone()
    }

    /// The URL an arbitrary endpoint resolves against: an endpoint that
    /// starts with a slash is taken relative to the server (the leading
    /// slash is dropped, as the server URL already ends with one), anything
    /// else relative to the index.
    pub fn arbitrary_request_url(&self, endpoint: &str) -> (r: String)
        ensures
            endpoint@.len() > 0 && endpoint@[0] == '/' ==> r@ == self.options.url@
                + endpoint@.subrange(1, endpoint@.len() as int),
            !(endpoint@.len() > 0 && endpoint@[0] == '/') ==> r@ == self.options.url@
                + self.options.index_name@ + "/"@ + endpoint@,
    {
        let len = endpoint.unicode_len();
        if len > 0 && endpoint.get_char(0) == '/' {
            let mut s = self.url();
            s.append(endpoint.substring_char(1, len));
            s
        } else {
            let mut s = self.base_url();
            s.append("/");
            s.append(endpoint);
            s
        }
    }
}

} // verus!
