//! Reducing a sample to one number.
//!
//! The total of processors is how many the sample names; the available ones
//! are those whose usage is at most the policy's threshold, the threshold
//! itself included; memory and disk figures are summed, and a sum that does
//! not fit in 64 bits is an error, never a wrapped number.

use vstd::prelude::*;
use crate::error::ErrorKind;
use crate::metric::MetricKind;
use crate::sample::{model, Entity, PerEntitySample};
use crate::usage::{spec_within, within, DEFAULT_USAGE_THRESHOLD};

verus! {

/// The share of the total, in percent, below which memory or disk space
/// counts as low unless a policy says otherwise.
pub const DEFAULT_LOW_RESOURCE_PERCENT: u64 = 5;

/// The thresholds that aggregation and classification go by.
#[derive(Clone, Copy, Debug, PartialEq, Eq, Structural)]
pub struct Policy {
    /// The usage up to which a processor is available, as the bits of a
    /// single-precision percentage.
    pub cpu_usage_threshold: u32,
    /// Memory or disk space is low when less than this many percent of the
    /// total are available.
    pub low_resource_percent: u64,
}

impl Policy {
    /// Processors are available up to 95.0 percent usage; memory and disk
    /// space are low under 5 percent of the total.
    pub open spec fn spec_default() -> Policy {
        Policy {
            cpu_usage_threshold: DEFAULT_USAGE_THRESHOLD,
            low_resource_percent: DEFAULT_LOW_RESOURCE_PERCENT,
        }
    }
}

impl Default for Policy {
    /// The default policy.
    fn default() -> (policy: Policy)
        ensures
            policy == Policy::spec_default(),
    {
        Policy {
            cpu_usage_threshold: DEFAULT_USAGE_THRESHOLD,
            low_resource_percent: DEFAULT_LOW_RESOURCE_PERCENT,
        }
    }
}

/// The sum of the values of `s`.
pub open spec fn sum_values(s: Seq<(Seq<u8>, u64)>) -> nat
    decreases s.len(),
{
    if s.len() == 0 {
        0
    } else {
        sum_values(s.drop_last()) + s.last().1 as nat
    }
}

/// How many values of `s` are a usage at most `threshold`.
pub open spec fn count_within(s: Seq<(Seq<u8>, u64)>, threshold: u32) -> nat
    decreases s.len(),
{
    if s.len() == 0 {
        0
    } else {
        count_within(s.drop_last(), threshold) + if spec_within(s.last().1, threshold) {
            1nat
        } else {
            0nat
        }
    }
}

/// The number that a sample of `kind` with entries `s` stands for.
pub open spec fn spec_aggregate(kind: MetricKind, s: Seq<(Seq<u8>, u64)>, policy: Policy) -> nat {
    match kind {
        MetricKind::CpuTotal => s.len(),
        MetricKind::CpuAvailable => count_within(s, policy.cpu_usage_threshold),
        _ => sum_values(s),
    }
}

/// The aggregate as a result: the number where it fits in 64 bits, an
/// overflow error where it does not.
pub open spec fn spec_aggregate_result(
    kind: MetricKind,
    s: Seq<(Seq<u8>, u64)>,
    policy: Policy,
) -> Result<u64, ErrorKind> {
    let n = spec_aggregate(kind, s, policy);
    if n <= u64::MAX {
        Ok(n as u64)
    } else {
        Err(ErrorKind::NumericOverflow)
    }
}

/// No more processors are available than there are.
pub proof fn lemma_available_at_most_total(s: Seq<(Seq<u8>, u64)>, policy: Policy)
    ensures
        spec_aggregate(MetricKind::CpuAvailable, s, policy) <= spec_aggregate(
            MetricKind::CpuTotal,
            s,
            policy,
        ),
{
    lemma_count_within_bounds(s, policy.cpu_usage_threshold);
}

/// A count of entries is at most their number, and is their number exactly
/// when every one of them is within the threshold.
pub proof fn lemma_count_within_bounds(s: Seq<(Seq<u8>, u64)>, threshold: u32)
    ensures
        count_within(s, threshold) <= s.len(),
        count_within(s, threshold) == s.len() <==> forall|i: int|
            0 <= i < s.len() ==> spec_within((#[trigger] s[i]).1, threshold),
    decreases s.len(),
{
    if s.len() > 0 {
        let t = s.drop_last();
        lemma_count_within_bounds(t, threshold);
        if count_within(s, threshold) == s.len() {
            assert forall|i: int| 0 <= i < s.len() implies spec_within(
                (#[trigger] s[i]).1,
                threshold,
            ) by {
                if i < t.len() {
                    assert(spec_within(t[i].1, threshold));
                }
            }
        }
        if forall|i: int| 0 <= i < s.len() ==> spec_within((#[trigger] s[i]).1, threshold) {
            assert forall|i: int| 0 <= i < t.len() implies spec_within(
                (#[trigger] t[i]).1,
                threshold,
            ) by {}
        }
    }
}

/// The sum over the first entries of a sequence is at most the sum over all.
pub proof fn lemma_sum_of_prefix(s: Seq<(Seq<u8>, u64)>, n: int)
    requires
        0 <= n <= s.len(),
    ensures
        sum_values(s.take(n)) <= sum_values(s),
    decreases s.len(),
{
    if n == s.len() {
        assert(s.take(n) =~= s);
    } else {
        lemma_sum_of_prefix(s.drop_last(), n);
        assert(s.drop_last().take(n) =~= s.take(n));
    }
}

/// A sum is zero exactly if every value summed is zero.
pub proof fn lemma_sum_is_zero(s: Seq<(Seq<u8>, u64)>)
    ensures
        sum_values(s) == 0 <==> forall|i: int| 0 <= i < s.len() ==> (#[trigger] s[i]).1 == 0,
    decreases s.len(),
{
    if s.len() > 0 {
        let t = s.drop_last();
        lemma_sum_is_zero(t);
        if sum_values(s) == 0 {
            assert forall|i: int| 0 <= i < s.len() implies (#[trigger] s[i]).1 == 0 by {
                if i < t.len() {
                    assert(t[i].1 == 0);
                }
            }
        }
        if forall|i: int| 0 <= i < s.len() ==> (#[trigger] s[i]).1 == 0 {
            assert forall|i: int| 0 <= i < t.len() implies (#[trigger] t[i]).1 == 0 by {
                assert(s[i].1 == 0);
            }
            assert(s[s.len() - 1].1 == 0);
        }
    }
}

/// Whether the values of the sample sum to zero.
pub fn sums_to_zero(sample: &PerEntitySample) -> (zero: bool)
    ensures
        zero == (sum_values(sample@) == 0),
{
    let entries = sample.entries();
    let ghost s = sample@;
    let mut i: usize = 0;
    while i < entries.len()
        invariant
            i <= entries.len(),
            s == sample@,
            s == model(entries@),
            forall|k: int| 0 <= k < i ==> (#[trigger] s[k]).1 == 0,
        decreases entries.len() - i,
    {
        if entries[i].value != 0 {
            proof {
                lemma_sum_is_zero(s);
                assert(s[i as int].1 != 0);
            }
            return false;
        }
        i = i + 1;
    }
    proof {
        lemma_sum_is_zero(s);
    }
    true
}

/// Counts the entries whose usage is at most `threshold`.
fn count_entries_within(entries: &Vec<Entity>, threshold: u32) -> (n: u64)
    ensures
        n == count_within(model(entries@), threshold),
{
    let ghost s = model(entries@);
    let mut n: u64 = 0;
    let mut i: usize = 0;
    while i < entries.len()
        invariant
            i <= entries.len(),
            s == model(entries@),
            n == count_within(s.take(i as int), threshold),
            n <= i,
        decreases entries.len() - i,
    {
        assert(s.take(i as int + 1).drop_last() =~= s.take(i as int));
        if within(entries[i].value, threshold) {
            n = n + 1;
        }
        i = i + 1;
    }
    assert(s.take(i as int) =~= s);
    n
}

/// Sums the values of the entries, or reports that the sum does not fit.
fn sum_entries(entries: &Vec<Entity>) -> (r: Option<u64>)
    ensures
        match r {
            Some(n) => n == sum_values(model(entries@)),
            None => sum_values(model(entries@)) > u64::MAX,
        },
{
    let ghost s = model(entries@);
    let mut sum: u64 = 0;
    let mut i: usize = 0;
    while i < entries.len()
        invariant
            i <= entries.len(),
            s == model(entries@),
            sum == sum_values(s.take(i as int)),
        decreases entries.len() - i,
    {
        assert(s.take(i as int + 1).drop_last() =~= s.take(i as int));
        match sum.checked_add(entries[i].value) {
            Some(next) => {
                sum = next;
            },
            None => {
                proof {
                    lemma_sum_of_prefix(s, i as int + 1);
                }
                return None;
            },
        }
        i = i + 1;
    }
    assert(s.take(i as int) =~= s);
    Some(sum)
}

/// Reduces a sample to the number it stands for under `policy`.
pub fn aggregate(sample: &PerEntitySample, policy: &Policy) -> (r: Result<u64, ErrorKind>)
    ensures
        r == spec_aggregate_result(sample.spec_kind(), sample@, *policy),
        sample.spec_kind() == MetricKind::CpuAvailable ==> r is Ok && r->Ok_0 <= sample@.len(),
        sample.spec_kind() == MetricKind::CpuTotal ==> r == Ok::<u64, ErrorKind>(sample@.len() as u64),
{
    let entries = sample.entries();
    match sample.kind() {
        MetricKind::CpuTotal => Ok(entries.len() as u64),
        MetricKind::CpuAvailable => {
            proof {
                lemma_count_within_bounds(sample@, policy.cpu_usage_threshold);
            }
            Ok(count_entries_within(entries, policy.cpu_usage_threshold))
        },
        _ => match sum_entries(entries) {
            Some(n) => Ok(n),
            None => Err(ErrorKind::NumericOverflow),
        },
    }
}

} // verus!
