//! Usage metering: inference usage merged over a request, and the hardware
//! counter shared by every step of a request.

use vstd::prelude::*;
use vstd::seq_lib::{commutative_foldl, lemma_fold_left_permutation};

verus! {

/// Addition that stops at `u64::MAX` instead of overflowing.
pub open spec fn sat_add(a: u64, b: u64) -> u64 {
    if a + b > u64::MAX {
        u64::MAX
    } else {
        (a + b) as u64
    }
}

fn saturating_sum(a: u64, b: u64) -> (r: u64)
    ensures
        r == sat_add(a, b),
{
    a.saturating_add(b)
}

/// One contribution of inference usage: the cost units an inference call spent.
#[derive(Clone, Copy, Debug, PartialEq, Eq, Structural)]
pub struct InferenceUsage {
    pub tokens: u64,
}

/// Inference usage accumulated over a request: the total of the contributions
/// merged so far, and whether any contribution was merged at all.
#[derive(Clone, Copy, Debug, PartialEq, Eq, Structural)]
pub struct UsageAccumulator {
    pub tokens: u64,
    pub merged: bool,
}

/// The accumulator after merging one optional contribution into `acc`.
pub open spec fn merge_spec(acc: UsageAccumulator, usage: Option<InferenceUsage>) -> UsageAccumulator {
    match usage {
        Some(u) => UsageAccumulator { tokens: sat_add(acc.tokens, u.tokens), merged: true },
        None => acc,
    }
}

/// The accumulator of a fresh request.
pub open spec fn empty_usage() -> UsageAccumulator {
    UsageAccumulator { tokens: 0, merged: false }
}

/// The accumulator after merging the contributions of `s`, in order, into `acc`.
pub open spec fn merge_all(acc: UsageAccumulator, s: Seq<Option<InferenceUsage>>) -> UsageAccumulator {
    s.fold_left(acc, |a: UsageAccumulator, u: Option<InferenceUsage>| merge_spec(a, u))
}

/// The report that an accumulator finalizes to: nothing if no contribution
/// was ever merged, otherwise the totals.
pub open spec fn report_of(acc: UsageAccumulator) -> Option<InferenceUsage> {
    if acc.merged {
        Some(InferenceUsage { tokens: acc.tokens })
    } else {
        None
    }
}

impl UsageAccumulator {
    /// An accumulator with nothing merged.
    pub fn new() -> (r: UsageAccumulator)
        ensures
            r == empty_usage(),
    {
        UsageAccumulator { tokens: 0, merged: false }
    }

    /// Merges an optional contribution: an absent one changes nothing, a
    /// present one is added to the totals.
    pub fn merge_opt(&mut self, usage: Option<InferenceUsage>)
        ensures
            *final(self) == merge_spec(*old(self), usage),
    {
        if let Some(u) = usage {
            self.tokens = saturating_sum(self.tokens, u.tokens);
            self.merged = true;
        }
    }

    /// The inference report of the request: absent when nothing was merged.
    pub fn into_non_empty(self) -> (r: Option<InferenceUsage>)
        ensures
            r == report_of(self),
            r is Some <==> self.merged,
    {
        if self.merged {
            Some(InferenceUsage { tokens: self.tokens })
        } else {
            None
        }
    }
}

/// Merging two contributions one after the other gives the same totals in
/// either order.
pub proof fn lemma_merge_commutes(acc: UsageAccumulator, a: Option<InferenceUsage>, b: Option<InferenceUsage>)
    ensures
        merge_spec(merge_spec(acc, a), b) == merge_spec(merge_spec(acc, b), a),
{
}

/// Merging a run of contributions and then another run gives the totals of
/// merging both runs in one go, so contributions can be grouped freely.
pub proof fn lemma_merge_associative(
    acc: UsageAccumulator,
    s1: Seq<Option<InferenceUsage>>,
    s2: Seq<Option<InferenceUsage>>,
)
    ensures
        merge_all(merge_all(acc, s1), s2) == merge_all(acc, s1 + s2),
{
    let f = |a: UsageAccumulator, u: Option<InferenceUsage>| merge_spec(a, u);
    (s1 + s2).lemma_fold_left_split(acc, f, s1.len() as int);
    assert((s1 + s2).subrange(0, s1.len() as int) =~= s1);
    assert((s1 + s2).subrange(s1.len() as int, (s1 + s2).len() as int) =~= s2);
}

/// Merging the same multiset of contributions in any order yields the same
/// totals, and the same answer to whether anything was merged.
pub proof fn lemma_merge_order_independent(
    acc: UsageAccumulator,
    s1: Seq<Option<InferenceUsage>>,
    s2: Seq<Option<InferenceUsage>>,
)
    requires
        s1.to_multiset() == s2.to_multiset(),
    ensures
        merge_all(acc, s1) == merge_all(acc, s2),
{
    let f = |a: UsageAccumulator, u: Option<InferenceUsage>| merge_spec(a, u);
    assert forall|x: Option<InferenceUsage>, y: Option<InferenceUsage>, v: UsageAccumulator|
        #[trigger] f(f(v, x), y) == f(f(v, y), x) by {
        lemma_merge_commutes(v, x, y);
    }
    assert(commutative_foldl(f));
    lemma_fold_left_permutation(s1, s2, f, acc);
}

/// Whether any contribution of `s` is present.
pub open spec fn any_present(s: Seq<Option<InferenceUsage>>) -> bool {
    exists|i: int| 0 <= i < s.len() && (#[trigger] s[i]) is Some
}

/// Merging a run of contributions into a fresh accumulator finalizes to a
/// report exactly when at least one contribution was present.
pub proof fn lemma_report_iff_merged(s: Seq<Option<InferenceUsage>>)
    ensures
        report_of(merge_all(empty_usage(), s)) is Some <==> any_present(s),
    decreases s.len(),
{
    if s.len() > 0 {
        let init = s.drop_last();
        lemma_report_iff_merged(init);
        assert(merge_all(empty_usage(), s) == merge_spec(merge_all(empty_usage(), init), s.last()));
        if any_present(init) {
            let i = choose|i: int| 0 <= i < init.len() && (#[trigger] init[i]) is Some;
            assert(s[i] == init[i]);
        }
        if any_present(s) && !any_present(init) {
            let i = choose|i: int| 0 <= i < s.len() && (#[trigger] s[i]) is Some;
            if i < init.len() {
                assert(init[i] == s[i]);
            }
        }
        if s.last() is Some {
            assert(s[s.len() - 1] is Some);
        }
    }
}

/// Hardware cost metered for one request.
#[derive(Clone, Copy, Debug, PartialEq, Eq, Structural)]
pub struct HardwareUsage {
    pub cpu: u64,
    pub payload_io_read: u64,
    pub payload_io_write: u64,
    pub vector_io_read: u64,
    pub vector_io_write: u64,
}

/// The sum of two hardware usages, each counter stopping at `u64::MAX`.
pub open spec fn hardware_sum(a: HardwareUsage, b: HardwareUsage) -> HardwareUsage {
    HardwareUsage {
        cpu: sat_add(a.cpu, b.cpu),
        payload_io_read: sat_add(a.payload_io_read, b.payload_io_read),
        payload_io_write: sat_add(a.payload_io_write, b.payload_io_write),
        vector_io_read: sat_add(a.vector_io_read, b.vector_io_read),
        vector_io_write: sat_add(a.vector_io_write, b.vector_io_write),
    }
}

/// Hardware usage with every counter at zero.
pub open spec fn zero_hardware() -> HardwareUsage {
    HardwareUsage {
        cpu: 0,
        payload_io_read: 0,
        payload_io_write: 0,
        vector_io_read: 0,
        vector_io_write: 0,
    }
}

/// The per-request hardware counter, created once per request and handed to
/// every step of it.
#[derive(Debug)]
pub struct HwMeasurementAcc {
    pub usage: HardwareUsage,
}

impl HwMeasurementAcc {
    /// A counter with every total at zero.
    pub fn new() -> (r: HwMeasurementAcc)
        ensures
            r.usage == zero_hardware(),
    {
        HwMeasurementAcc {
            usage: HardwareUsage {
                cpu: 0,
                payload_io_read: 0,
                payload_io_write: 0,
                vector_io_read: 0,
                vector_io_write: 0,
            },
        }
    }

    /// Adds a measured amount to the counter.
    pub fn accumulate(&mut self, amount: HardwareUsage)
        ensures
            final(self).usage == hardware_sum(old(self).usage, amount),
    {
        let u = self.usage;
        self.usage = HardwareUsage {
            cpu: saturating_sum(u.cpu, amount.cpu),
            payload_io_read: saturating_sum(u.payload_io_read, amount.payload_io_read),
            payload_io_write: saturating_sum(u.payload_io_write, amount.payload_io_write),
            vector_io_read: saturating_sum(u.vector_io_read, amount.vector_io_read),
            vector_io_write: saturating_sum(u.vector_io_write, amount.vector_io_write),
        };
    }

    /// The hardware report of the request; always present, zero or not.
    pub fn to_report(&self) -> (r: HardwareUsage)
        ensures
            r == self.usage,
    {
        self.usage
    }
}

} // verus!
