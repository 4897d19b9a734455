//! Sizing of bulk-indexing concurrency.
//!
//! Parallelism beyond the index's shard count wastes effort on the server,
//! parallelism beyond the local CPUs wastes effort encoding request bodies,
//! and the operator's configured cap is a hard ceiling; a bulk session uses
//! the smallest of the three, computed once at its start and only read
//! afterwards.

use vstd::prelude::*;

use crate::elasticsearch::Elasticsearch;

verus! {

/// Relies on num_cpus::get: the number of logical CPUs available to this
/// process, documented to be at least one.
#[verifier::external_body]
fn detected_cpus() -> (r: usize)
    ensures
        r >= 1,
{
    num_cpus::get()
}

/// The sizing of one bulk-indexing session.
#[derive(Debug)]
pub struct ElasticsearchBulkRequest {
    /// Capacity of the work queue feeding the session's workers.
    pub queue_size: usize,
    /// Number of concurrent workers the session may use.
    pub concurrency: usize,
    /// Number of documents per submitted batch.
    pub batch_size: usize,
}

impl Elasticsearch {
    /// Sizes a bulk session for the target index: as many workers as the
    /// shard count, the detected CPU count, and the configured cap allow,
    /// and always at least one.
    pub fn start_bulk(&self) -> (r: ElasticsearchBulkRequest)
        requires
            self.options.wf(),
        ensures
            1 <= r.concurrency <= self.options.shards,
            r.concurrency <= self.options.bulk_concurrency,
            exists|cpus: usize|
                cpus >= 1 && r.concurrency == vstd::math::min(
                    self.options.shards as int,
                    vstd::math::min(cpus as int, self.options.bulk_concurrency as int),
                ),
            r.queue_size == 10000,
            r.batch_size == self.options.batch_size,
    {
        let cpus = detected_cpus();
        let shards = self.options.shards as usize;
        let cap = self.options.bulk_concurrency as usize;
        let concurrency = compute_bulk_concurrency(shards, cpus, cap);
        ElasticsearchBulkRequest {
            queue_size: 10000,
            concurrency,
            batch_size: self.options.batch_size as usize,
        }
    }
}

/// Number of workers a bulk session may use: the smallest of the index's
/// shard count, the host's CPU count, and the operator-configured cap,
/// but never less than one worker even in degenerate configurations.
pub fn compute_bulk_concurrency(shards: usize, cpus: usize, cap: usize) -> (r: usize)
    ensures
        shards >= 1 && cpus >= 1 && cap >= 1 ==> r == vstd::math::min(
            shards as int,
            vstd::math::min(cpus as int, cap as int),
        ),
        r >= 1,
        r <= shards || r == 1,
        r <= cpus || r == 1,
        r <= cap || r == 1,
{
    let inner: usize = if cpus <= cap {
        cpus
    } else {
        cap
    };
    let m: usize = if shards <= inner {
        shards
    } else {
        inner
    };
    if m == 0 {
        1
    } else {
        m
    }
}

} // verus!
