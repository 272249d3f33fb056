//! Resolution of an optional shard-key list into a routing selector.

use vstd::prelude::*;

verus! {

/// A key that addresses one shard of a collection.
#[derive(Debug)]
pub enum ShardKey {
    Keyword(String),
    Number(u64),
}

/// Where a query is routed: every shard, or the shards of the given keys.
#[derive(Debug)]
pub enum ShardSelector {
    All,
    Specific(Vec<ShardKey>),
}

/// The selector that a shard-key input resolves to: `All` for an absent or
/// empty list, otherwise exactly the given keys, duplicates included.
pub open spec fn spec_resolve_shard_selector(shard_key: Option<Vec<ShardKey>>) -> ShardSelector {
    match shard_key {
        Some(keys) => if keys@.len() > 0 {
            ShardSelector::Specific(keys)
        } else {
            ShardSelector::All
        },
        None => ShardSelector::All,
    }
}

/// Resolves the shard keys of one query item into its selector.
pub fn resolve_shard_selector(shard_key: Option<Vec<ShardKey>>) -> (r: ShardSelector)
    ensures
        r == spec_resolve_shard_selector(shard_key),
        (shard_key is None || shard_key->0@.len() == 0) <==> r is All,
        r is Specific ==> r->Specific_0@ == shard_key->0@,
{
    match shard_key {
        Some(keys) => {
            if keys.len() > 0 {
                ShardSelector::Specific(keys)
            } else {
                ShardSelector::All
            }
        },
        None => ShardSelector::All,
    }
}

} // verus!
