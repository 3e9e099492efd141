//! The queries: one number for a kind, and a total with what is available
//! of it for a subsystem.
//!
//! What is available is always held against the total of the same readings:
//! readings that would have more available than there is are rejected, for a
//! summary and for the available figure alone.

use vstd::prelude::*;
use crate::aggregate::{
    aggregate, lemma_count_within_bounds, spec_aggregate_result, sum_values, Policy,
};
use crate::collector::{Collector, HostReadings};
use crate::error::ErrorKind;
use crate::metric::{MetricKind, Subsystem};
use crate::sample::{distinct_ids, lemma_last_wins_len, lemma_last_wins_of_distinct};
use crate::sampler::{
    cpu_entries, lemma_sample_is_populated, read_subsystem, sample_of, spec_sample,
};

verus! {

/// How much there is of a resource and how much of that is available. The
/// available amount never exceeds the total.
#[derive(Clone, Copy, Debug, PartialEq, Eq)]
pub struct ResourceSummary {
    total: u64,
    available: u64,
}

impl ResourceSummary {
    /// No more is available than there is.
    #[verifier::type_invariant]
    spec fn available_within_total(self) -> bool {
        self.available <= self.total
    }

    /// How much there is.
    pub closed spec fn spec_total(&self) -> u64 {
        self.total
    }

    /// How much of it is available.
    pub closed spec fn spec_available(&self) -> u64 {
        self.available
    }

    /// The summary of `total` and `available`, unless more is said to be
    /// available than there is.
    pub fn new(total: u64, available: u64) -> (r: Option<ResourceSummary>)
        ensures
            match r {
                Some(summary) => {
                    &&& available <= total
                    &&& summary.spec_total() == total
                    &&& summary.spec_available() == available
                },
                None => available > total,
            },
    {
        if available > total {
            None
        } else {
            Some(ResourceSummary { total, available })
        }
    }

    /// How much there is.
    pub fn total(&self) -> (total: u64)
        ensures
            total == self.spec_total(),
            self.spec_available() <= total,
    {
        proof {
            use_type_invariant(self);
        }
        self.total
    }

    /// How much of it is available; never more than the total.
    pub fn available(&self) -> (available: u64)
        ensures
            available == self.spec_available(),
            available <= self.spec_total(),
    {
        proof {
            use_type_invariant(self);
        }
        self.available
    }

    /// What is not available.
    pub fn used(&self) -> (used: u64)
        ensures
            used == self.spec_total() - self.spec_available(),
    {
        proof {
            use_type_invariant(self);
        }
        self.total - self.available
    }
}

/// The number that the sample of `kind` aggregates to, or why there is none.
/// Nothing is held against anything here: see [`spec_measure`].
pub open spec fn spec_figure(kind: MetricKind, readings: HostReadings, policy: Policy) -> Result<
    u64,
    ErrorKind,
> {
    match spec_sample(kind, readings) {
        Ok(s) => spec_aggregate_result(kind, s, policy),
        Err(e) => Err(e.spec_kind()),
    }
}

/// The total of a subsystem and what is available of it, in that order, as
/// `readings` give them; an error where either cannot be had or where more
/// would be available than there is.
pub open spec fn spec_summary(subsystem: Subsystem, readings: HostReadings, policy: Policy)
    -> Result<(u64, u64), ErrorKind> {
    match spec_figure(subsystem.spec_total_kind(), readings, policy) {
        Err(e) => Err(e),
        Ok(total) => match spec_figure(subsystem.spec_available_kind(), readings, policy) {
            Err(e) => Err(e),
            Ok(available) => if available > total {
                Err(ErrorKind::InconsistentReading)
            } else {
                Ok((total, available))
            },
        },
    }
}

/// The number that `readings` give for `kind`, or why they give none. A
/// total is the figure of its sample. What is available is its part of the
/// summary of its subsystem, so that it fails where the total fails and
/// where it would exceed the total.
pub open spec fn spec_measure(kind: MetricKind, readings: HostReadings, policy: Policy) -> Result<
    u64,
    ErrorKind,
> {
    if kind.spec_is_available() {
        match spec_summary(kind.spec_subsystem(), readings, policy) {
            Ok(pair) => Ok(pair.1),
            Err(e) => Err(e),
        }
    } else {
        spec_figure(kind, readings, policy)
    }
}

/// `r` is the summary of the total and the available amount `expected`, or
/// fails as `expected` fails.
pub open spec fn summarized_as(
    r: Result<ResourceSummary, ErrorKind>,
    expected: Result<(u64, u64), ErrorKind>,
) -> bool {
    match r {
        Ok(summary) => expected == Ok::<(u64, u64), ErrorKind>(
            (summary.spec_total(), summary.spec_available()),
        ),
        Err(e) => expected == Err::<(u64, u64), ErrorKind>(e),
    }
}

/// What a figure can come to, whatever the readings: a capacity or a count
/// of processors is above zero, and a count of processors is no more than a
/// vector can hold; processors can only fail for being none, memory only for
/// a zero, volumes only for being none, for a sum beyond 64 bits, and their
/// sizes for summing to zero.
pub proof fn lemma_figure_outcomes(kind: MetricKind, readings: HostReadings, policy: Policy)
    ensures
        match spec_figure(kind, readings, policy) {
            Ok(v) => {
                &&& kind == MetricKind::CpuTotal || kind.spec_subsystem() == Subsystem::Memory
                    || kind == MetricKind::DiskTotal ==> v > 0
                &&& kind.spec_subsystem() == Subsystem::Cpu ==> v <= usize::MAX
            },
            Err(e) => match kind.spec_subsystem() {
                Subsystem::Cpu => e == ErrorKind::CollectorUnavailable,
                Subsystem::Memory => e == ErrorKind::InvalidZeroReading,
                Subsystem::Disk => e == ErrorKind::CollectorUnavailable || e
                    == ErrorKind::NumericOverflow || (e == ErrorKind::InvalidZeroReading && kind
                    == MetricKind::DiskTotal),
            },
        },
{
    lemma_sample_is_populated(kind, readings);
    if let Ok(s) = spec_sample(kind, readings) {
        match kind.spec_subsystem() {
            Subsystem::Cpu => {
                lemma_last_wins_len(cpu_entries(readings.cpus@));
                assert(s.len() <= readings.cpus.len());
                lemma_count_within_bounds(s, policy.cpu_usage_threshold);
            },
            Subsystem::Memory => {
                assert(sum_values(s) == s[0].1) by {
                    reveal_with_fuel(sum_values, 2);
                }
            },
            Subsystem::Disk => {},
        }
    }
}

/// What a summary can come to, whatever the readings: the total is above
/// zero, what is available is at most the total and for memory above zero,
/// and each subsystem fails only in its own ways.
pub proof fn lemma_summary_outcomes(subsystem: Subsystem, readings: HostReadings, policy: Policy)
    ensures
        match spec_summary(subsystem, readings, policy) {
            Ok(pair) => {
                &&& pair.1 <= pair.0
                &&& pair.0 > 0
                &&& subsystem == Subsystem::Memory ==> pair.1 > 0
                &&& subsystem == Subsystem::Cpu ==> pair.0 <= usize::MAX
            },
            Err(e) => match subsystem {
                Subsystem::Cpu => e == ErrorKind::CollectorUnavailable,
                Subsystem::Memory => e == ErrorKind::InvalidZeroReading || e
                    == ErrorKind::InconsistentReading,
                Subsystem::Disk => e == ErrorKind::CollectorUnavailable || e
                    == ErrorKind::InvalidZeroReading || e == ErrorKind::NumericOverflow || e
                    == ErrorKind::InconsistentReading,
            },
        },
{
    lemma_figure_outcomes(subsystem.spec_total_kind(), readings, policy);
    lemma_figure_outcomes(subsystem.spec_available_kind(), readings, policy);
    if subsystem == Subsystem::Cpu && readings.cpus@.len() > 0 {
        let s = spec_sample(MetricKind::CpuTotal, readings)->Ok_0;
        lemma_count_within_bounds(s, policy.cpu_usage_threshold);
    }
}

/// What a measurement can come to, whatever the readings: a capacity or a
/// count of processors is above zero; what is available is at most the total
/// that the same readings give; and each kind fails only in its own ways,
/// what is available also where it would exceed the total.
pub proof fn lemma_measure_outcomes(kind: MetricKind, readings: HostReadings, policy: Policy)
    ensures
        match spec_measure(kind, readings, policy) {
            Ok(v) => {
                &&& kind == MetricKind::CpuTotal || kind.spec_subsystem() == Subsystem::Memory
                    || kind == MetricKind::DiskTotal ==> v > 0
                &&& kind.spec_subsystem() == Subsystem::Cpu ==> v <= usize::MAX
                &&& kind.spec_is_available() ==> (spec_measure(
                    kind.spec_subsystem().spec_total_kind(),
                    readings,
                    policy,
                ) matches Ok(total) && v <= total)
            },
            Err(e) => match kind.spec_subsystem() {
                Subsystem::Cpu => e == ErrorKind::CollectorUnavailable,
                Subsystem::Memory => e == ErrorKind::InvalidZeroReading || (e
                    == ErrorKind::InconsistentReading && kind.spec_is_available()),
                Subsystem::Disk => e == ErrorKind::CollectorUnavailable || e
                    == ErrorKind::InvalidZeroReading || e == ErrorKind::NumericOverflow || (e
                    == ErrorKind::InconsistentReading && kind.spec_is_available()),
            },
        },
{
    lemma_figure_outcomes(kind, readings, policy);
    lemma_summary_outcomes(kind.spec_subsystem(), readings, policy);
}

/// No more processors are available than there are: where the readings list
/// a processor, both counts can be taken and the available one is the
/// smaller.
pub proof fn lemma_cpu_available_at_most_total(readings: HostReadings, policy: Policy)
    requires
        readings.cpus@.len() > 0,
    ensures
        spec_measure(MetricKind::CpuTotal, readings, policy) is Ok,
        spec_measure(MetricKind::CpuAvailable, readings, policy) is Ok,
        spec_measure(MetricKind::CpuAvailable, readings, policy)->Ok_0 <= spec_measure(
            MetricKind::CpuTotal,
            readings,
            policy,
        )->Ok_0,
{
    lemma_figure_outcomes(MetricKind::CpuTotal, readings, policy);
    lemma_figure_outcomes(MetricKind::CpuAvailable, readings, policy);
    let s = spec_sample(MetricKind::CpuTotal, readings)->Ok_0;
    lemma_last_wins_len(cpu_entries(readings.cpus@));
    lemma_count_within_bounds(s, policy.cpu_usage_threshold);
}

/// Where no two processors are listed under one name, the total is how many
/// are listed. Processors listed under one name count once.
pub proof fn lemma_cpu_total_is_number_listed(readings: HostReadings, policy: Policy)
    requires
        readings.cpus@.len() > 0,
        distinct_ids(cpu_entries(readings.cpus@)),
    ensures
        spec_measure(MetricKind::CpuTotal, readings, policy) == Ok::<u64, ErrorKind>(
            readings.cpus@.len() as u64,
        ),
{
    lemma_last_wins_of_distinct(cpu_entries(readings.cpus@));
    assert(readings.cpus@.len() == readings.cpus.len());
}

/// What is available never exceeds the total: in every summary that can be
/// drawn up and in every available figure that can be measured. Readings
/// whose figures would have more available than there is are rejected as
/// inconsistent, by the summary and by the measurement of what is available
/// alike.
pub proof fn lemma_available_within_total(
    subsystem: Subsystem,
    readings: HostReadings,
    policy: Policy,
)
    ensures
        spec_summary(subsystem, readings, policy) matches Ok(pair) ==> pair.1 <= pair.0,
        spec_measure(subsystem.spec_available_kind(), readings, policy) matches Ok(available)
            ==> (spec_measure(subsystem.spec_total_kind(), readings, policy) matches Ok(total)
            && available <= total),
        (spec_figure(subsystem.spec_total_kind(), readings, policy) matches Ok(total)
            && spec_figure(subsystem.spec_available_kind(), readings, policy) matches Ok(
            available,
        ) && available > total) ==> {
            &&& spec_summary(subsystem, readings, policy) == Err::<(u64, u64), ErrorKind>(
                ErrorKind::InconsistentReading,
            )
            &&& spec_measure(subsystem.spec_available_kind(), readings, policy) == Err::<
                u64,
                ErrorKind,
            >(ErrorKind::InconsistentReading)
        },
{
}

/// The number that the sample of `kind` aggregates to.
pub fn figure_of(kind: MetricKind, readings: &HostReadings, policy: &Policy) -> (r: Result<
    u64,
    ErrorKind,
>)
    ensures
        r == spec_figure(kind, *readings, *policy),
{
    match sample_of(kind, readings) {
        Ok(sample) => aggregate(&sample, policy),
        Err(e) => Err(e.kind()),
    }
}

/// The total of `subsystem` and what is available of it, as `readings` give
/// them under `policy`.
pub fn summary_of(subsystem: Subsystem, readings: &HostReadings, policy: &Policy) -> (r: Result<
    ResourceSummary,
    ErrorKind,
>)
    ensures
        summarized_as(r, spec_summary(subsystem, *readings, *policy)),
        r matches Ok(summary) ==> summary.spec_available() <= summary.spec_total(),
{
    let total: u64 = match figure_of(subsystem.total_kind(), readings, policy) {
        Ok(total) => total,
        Err(e) => {
            return Err(e);
        },
    };
    let available: u64 = match figure_of(subsystem.available_kind(), readings, policy) {
        Ok(available) => available,
        Err(e) => {
            return Err(e);
        },
    };
    match ResourceSummary::new(total, available) {
        Some(summary) => Ok(summary),
        None => Err(ErrorKind::InconsistentReading),
    }
}

/// The number that `readings` give for `kind` under `policy`. What is
/// available is held against the total of the same readings.
pub fn measure_of(kind: MetricKind, readings: &HostReadings, policy: &Policy) -> (r: Result<
    u64,
    ErrorKind,
>)
    ensures
        r == spec_measure(kind, *readings, *policy),
{
    if kind.is_available() {
        match summary_of(kind.subsystem(), readings, policy) {
            Ok(summary) => Ok(summary.available()),
            Err(e) => Err(e),
        }
    } else {
        figure_of(kind, readings, policy)
    }
}

/// Refreshes the subsystem of `kind`, reads it and measures `kind`: the
/// result is the measure of some readings. So whatever the collector reports,
/// a capacity or a count of processors that is returned is above zero, and
/// each kind fails only in its own ways.
pub fn measure<C: Collector>(collector: &mut C, kind: MetricKind, policy: &Policy) -> (r: Result<
    u64,
    ErrorKind,
>)
    ensures
        exists|readings: HostReadings| #[trigger] spec_measure(kind, readings, *policy) == r,
        match r {
            Ok(v) => {
                &&& kind == MetricKind::CpuTotal || kind.spec_subsystem() == Subsystem::Memory
                    || kind == MetricKind::DiskTotal ==> v > 0
                &&& kind.spec_subsystem() == Subsystem::Cpu ==> v <= usize::MAX
            },
            Err(e) => match kind.spec_subsystem() {
                Subsystem::Cpu => e == ErrorKind::CollectorUnavailable,
                Subsystem::Memory => e == ErrorKind::InvalidZeroReading || (e
                    == ErrorKind::InconsistentReading && kind.spec_is_available()),
                Subsystem::Disk => e == ErrorKind::CollectorUnavailable || e
                    == ErrorKind::InvalidZeroReading || e == ErrorKind::NumericOverflow || (e
                    == ErrorKind::InconsistentReading && kind.spec_is_available()),
            },
        },
{
    let readings = read_subsystem(collector, kind.subsystem());
    proof {
        lemma_measure_outcomes(kind, readings, *policy);
    }
    measure_of(kind, &readings, policy)
}

/// Refreshes `subsystem`, reads it once and draws up its summary from that
/// one reading: the result is the summary of some readings. So whatever the
/// collector reports, the total is above zero, what is available is at most
/// the total and for memory above zero, and each subsystem fails only in its
/// own ways.
pub fn summary<C: Collector>(collector: &mut C, subsystem: Subsystem, policy: &Policy) -> (r:
    Result<ResourceSummary, ErrorKind>)
    ensures
        exists|readings: HostReadings|
            summarized_as(r, #[trigger] spec_summary(subsystem, readings, *policy)),
        match r {
            Ok(summary) => {
                &&& summary.spec_available() <= summary.spec_total()
                &&& summary.spec_total() > 0
                &&& subsystem == Subsystem::Memory ==> summary.spec_available() > 0
            },
            Err(e) => match subsystem {
                Subsystem::Cpu => e == ErrorKind::CollectorUnavailable,
                Subsystem::Memory => e == ErrorKind::InvalidZeroReading || e
                    == ErrorKind::InconsistentReading,
                Subsystem::Disk => e == ErrorKind::CollectorUnavailable || e
                    == ErrorKind::InvalidZeroReading || e == ErrorKind::NumericOverflow || e
                    == ErrorKind::InconsistentReading,
            },
        },
{
    let readings = read_subsystem(collector, subsystem);
    proof {
        lemma_summary_outcomes(subsystem, readings, *policy);
    }
    summary_of(subsystem, &readings, policy)
}

/// How many processors the host has.
pub fn cpu_total<C: Collector>(collector: &mut C) -> (r: Result<u64, ErrorKind>)
    ensures
        exists|readings: HostReadings| #[trigger]
            spec_measure(MetricKind::CpuTotal, readings, Policy::spec_default()) == r,
        match r {
            Ok(n) => 0 < n <= usize::MAX,
            Err(e) => e == ErrorKind::CollectorUnavailable,
        },
{
    measure(collector, MetricKind::CpuTotal, &Policy::default())
}

/// How many processors are used no more than the policy's threshold.
pub fn cpu_available<C: Collector>(collector: &mut C, policy: &Policy) -> (r: Result<
    u64,
    ErrorKind,
>)
    ensures
        exists|readings: HostReadings| #[trigger]
            spec_measure(MetricKind::CpuAvailable, readings, *policy) == r,
        match r {
            Ok(n) => n <= usize::MAX,
            Err(e) => e == ErrorKind::CollectorUnavailable,
        },
{
    measure(collector, MetricKind::CpuAvailable, policy)
}

/// Installed memory and what is available of it, in bytes.
pub fn memory_summary<C: Collector>(collector: &mut C) -> (r: Result<ResourceSummary, ErrorKind>)
    ensures
        exists|readings: HostReadings|
            summarized_as(
                r,
                #[trigger] spec_summary(Subsystem::Memory, readings, Policy::spec_default()),
            ),
        match r {
            Ok(summary) => 0 < summary.spec_available() <= summary.spec_total(),
            Err(e) => e == ErrorKind::InvalidZeroReading || e == ErrorKind::InconsistentReading,
        },
{
    summary(collector, Subsystem::Memory, &Policy::default())
}

/// The space of all volumes together and what is available of it, in bytes,
/// every volume counted once.
pub fn disk_summary<C: Collector>(collector: &mut C) -> (r: Result<ResourceSummary, ErrorKind>)
    ensures
        exists|readings: HostReadings|
            summarized_as(
                r,
                #[trigger] spec_summary(Subsystem::Disk, readings, Policy::spec_default()),
            ),
        match r {
            Ok(summary) => summary.spec_available() <= summary.spec_total() && summary.spec_total()
                > 0,
            Err(e) => e == ErrorKind::CollectorUnavailable || e == ErrorKind::InvalidZeroReading
                || e == ErrorKind::NumericOverflow || e == ErrorKind::InconsistentReading,
        },
{
    summary(collector, Subsystem::Disk, &Policy::default())
}

} // verus!
