//! Normalized query items and the read parameters of a request.

use vstd::prelude::*;

use crate::shard::ShardSelector;

verus! {

/// One normalized similarity-search request. Its content (vectors, filters)
/// is held by the caller under `handle`; this layer reads only the result
/// limit, which admission control bounds.
#[derive(Clone, Copy, Debug, PartialEq, Eq, Structural)]
pub struct QueryDescriptor {
    pub handle: u64,
    pub limit: u64,
}

/// One item of a batch: a normalized query and where it is routed.
#[derive(Debug)]
pub struct BatchItem {
    pub query: QueryDescriptor,
    pub shard_selector: ShardSelector,
}

/// The queries of a batch, in order.
pub open spec fn queries_of(items: Seq<BatchItem>) -> Seq<QueryDescriptor> {
    items.map_values(|b: BatchItem| b.query)
}

/// Consistency level of a read; the coordinator alone gives it meaning.
#[derive(Clone, Copy, Debug, PartialEq, Eq, Structural)]
pub enum ReadConsistency {
    Factor(u64),
    Majority,
    Quorum,
    All,
}

/// Read parameters of a request: the consistency token, forwarded unchanged,
/// and the timeout in seconds, absent when the service default applies.
#[derive(Clone, Copy, Debug, PartialEq, Eq, Structural)]
pub struct ReadParams {
    pub consistency: Option<ReadConsistency>,
    pub timeout_secs: Option<u64>,
}

} // verus!
