//! Admission control ("strict mode"): every query of a request is checked
//! against the collection's policy before anything is dispatched.

use vstd::prelude::*;

use crate::query::{queries_of, BatchItem, QueryDescriptor};

verus! {

/// The admission policy of a collection. When `enabled` is false nothing is
/// checked; an absent maximum is not checked either.
#[derive(Clone, Copy, Debug, PartialEq, Eq, Structural)]
pub struct StrictModePolicy {
    pub enabled: bool,
    pub max_timeout_secs: Option<u64>,
    pub max_query_limit: Option<u64>,
}

/// Why a request was refused.
#[derive(Clone, Copy, Debug, PartialEq, Eq, Structural)]
pub enum PolicyViolation {
    /// The requested timeout is above the collection's maximum.
    TimeoutTooLarge { requested: u64, max: u64 },
    /// The query at `index` asks for more results than the maximum.
    LimitTooLarge { index: usize, limit: u64, max: u64 },
}

/// Proof that a batch of `len` queries passed admission; dispatch requires it.
#[derive(Debug)]
pub struct Pass {
    len: usize,
}

impl Pass {
    /// The number of queries this pass admitted.
    pub closed spec fn spec_len(&self) -> usize {
        self.len
    }

    /// The number of queries this pass admitted.
    pub fn len(&self) -> (r: usize)
        ensures
            r == self.spec_len(),
    {
        self.len
    }
}

/// Whether the requested timeout breaks the policy.
pub open spec fn timeout_exceeds(policy: StrictModePolicy, timeout_secs: Option<u64>) -> bool {
    policy.enabled && policy.max_timeout_secs is Some && timeout_secs is Some
        && timeout_secs->0 > policy.max_timeout_secs->0
}

/// Whether one query breaks the policy.
pub open spec fn limit_exceeds(policy: StrictModePolicy, q: QueryDescriptor) -> bool {
    policy.enabled && policy.max_query_limit is Some && q.limit > policy.max_query_limit->0
}

/// Whether the policy admits the whole batch: the timeout and every query.
pub open spec fn admits(policy: StrictModePolicy, qs: Seq<QueryDescriptor>, timeout_secs: Option<u64>) -> bool {
    !timeout_exceeds(policy, timeout_secs) && forall|i: int|
        0 <= i < qs.len() ==> !limit_exceeds(policy, #[trigger] qs[i])
}

/// Whether `v` reports the first breach of the policy: the timeout, which is
/// checked first, or else the earliest query over the limit.
pub open spec fn reports_first_violation(
    policy: StrictModePolicy,
    qs: Seq<QueryDescriptor>,
    timeout_secs: Option<u64>,
    v: PolicyViolation,
) -> bool {
    match v {
        PolicyViolation::TimeoutTooLarge { requested, max } => timeout_exceeds(policy, timeout_secs)
            && timeout_secs == Some(requested) && policy.max_timeout_secs == Some(max),
        PolicyViolation::LimitTooLarge { index, limit, max } => !timeout_exceeds(policy, timeout_secs)
            && index < qs.len() && limit_exceeds(policy, qs[index as int])
            && qs[index as int].limit == limit && policy.max_query_limit == Some(max)
            && forall|j: int| 0 <= j < index ==> !limit_exceeds(policy, #[trigger] qs[j]),
    }
}

fn check_timeout(policy: &StrictModePolicy, timeout_secs: Option<u64>) -> (r: Result<(), PolicyViolation>)
    ensures
        r is Ok <==> !timeout_exceeds(*policy, timeout_secs),
        r is Err ==> r->Err_0 == (PolicyViolation::TimeoutTooLarge {
            requested: timeout_secs->0,
            max: policy.max_timeout_secs->0,
        }),
{
    if policy.enabled {
        if let (Some(max), Some(t)) = (policy.max_timeout_secs, timeout_secs) {
            if t > max {
                return Err(PolicyViolation::TimeoutTooLarge { requested: t, max });
            }
        }
    }
    Ok(())
}

fn check_limit(policy: &StrictModePolicy, q: &QueryDescriptor, index: usize) -> (r: Result<(), PolicyViolation>)
    ensures
        r is Ok <==> !limit_exceeds(*policy, *q),
        r is Err ==> r->Err_0 == (PolicyViolation::LimitTooLarge {
            index,
            limit: q.limit,
            max: policy.max_query_limit->0,
        }),
{
    if policy.enabled {
        if let Some(max) = policy.max_query_limit {
            if q.limit > max {
                return Err(PolicyViolation::LimitTooLarge { index, limit: q.limit, max });
            }
        }
    }
    Ok(())
}

/// Admits a single query, or reports how it breaks the policy.
pub fn check_strict_mode(policy: &StrictModePolicy, query: &QueryDescriptor, timeout_secs: Option<u64>) -> (r: Result<Pass, PolicyViolation>)
    ensures
        r is Ok <==> admits(*policy, seq![*query], timeout_secs),
        r is Ok ==> r->Ok_0.spec_len() == 1,
        r is Err ==> reports_first_violation(*policy, seq![*query], timeout_secs, r->Err_0),
{
    assert(seq![*query][0] == *query);
    check_timeout(policy, timeout_secs)?;
    check_limit(policy, query, 0)?;
    Ok(Pass { len: 1 })
}

/// Admits a batch as a whole: every query is checked before the answer is
/// given, and one breach refuses the entire batch.
pub fn check_strict_mode_batch(policy: &StrictModePolicy, items: &Vec<BatchItem>, timeout_secs: Option<u64>) -> (r: Result<Pass, PolicyViolation>)
    ensures
        r is Ok <==> admits(*policy, queries_of(items@), timeout_secs),
        r is Ok ==> r->Ok_0.spec_len() == items@.len(),
        r is Err ==> reports_first_violation(*policy, queries_of(items@), timeout_secs, r->Err_0),
{
    let ghost qs = queries_of(items@);
    check_timeout(policy, timeout_secs)?;
    let mut i: usize = 0;
    while i < items.len()
        invariant
            0 <= i <= items@.len(),
            qs == queries_of(items@),
            !timeout_exceeds(*policy, timeout_secs),
            forall|j: int| 0 <= j < i ==> !limit_exceeds(*policy, #[trigger] qs[j]),
        decreases items@.len() - i,
    {
        let r = check_limit(policy, &items[i].query, i);
        if r.is_err() {
            proof {
                assert(qs[i as int] == items@[i as int].query);
            }
            return Err(r.unwrap_err());
        }
        assert(qs[i as int] == items@[i as int].query);
        i = i + 1;
    }
    Ok(Pass { len: items.len() })
}

} // verus!
