//! The read-only per-index options a client handle is built from.
//!
//! The surrounding system derives these from the index's stored settings and
//! hands them over as plain values; they stay immutable for the lifetime of a
//! request.

use vstd::prelude::*;

verus! {

/// Connection and indexing parameters of one target index.
#[derive(Debug)]
pub struct ZDBIndexOptions {
    /// Base URL of the server, always with a trailing slash.
    pub url: String,
    /// Name of the index on the server.
    pub index_name: String,
    /// Alias the index is published under.
    pub alias: String,
    /// Type name used for documents in the index.
    pub doc_type_name: String,
    /// Number of shards of the index.
    pub shards: u32,
    /// Operator-configured ceiling on bulk-indexing concurrency.
    pub bulk_concurrency: u32,
    /// Number of documents per bulk batch.
    pub batch_size: u32,
    /// Whether this index shadows another index instead of owning data.
    pub is_shadow: bool,
}

impl ZDBIndexOptions {
    /// An equal copy of these options, for one more request object.
    pub fn duplicate(&self) -> (r: ZDBIndexOptions)
        ensures
            r == *self,
    {
        ZDBIndexOptions {
            url: self.url.clone(),
            index_name: self.index_name.clone(),
            alias: self.alias.clone(),
            doc_type_name: self.doc_type_name.clone(),
            shards: self.shards,
            bulk_concurrency: self.bulk_concurrency,
            batch_size: self.batch_size,
            is_shadow: self.is_shadow,
        }
    }

    /// Well-formed options: the URL ends with a slash, and the counts that
    /// size work are at least one.
    pub open spec fn wf(&self) -> bool {
        &&& self.url@.len() > 0
        &&& self.url@.last() == '/'
        &&& self.shards >= 1
        &&& self.bulk_concurrency >= 1
        &&& self.batch_size >= 1
    }
}

} // verus!
