//! Taking samples: from readings already in hand, and from a collector.
//!
//! An enumeration without entities is an error. So is a capacity of exactly
//! zero, be it a memory figure or the size of all volumes together: a live
//! host always has memory and disk space, so a zero means that the figure was
//! never filled in. Free disk space may be zero: volumes can be full.

use vstd::prelude::*;
use crate::aggregate::{sum_values, sums_to_zero};
use crate::collector::{Collector, CpuReading, DiskReading, HostReadings, MemoryReading};
use crate::error::SampleError;
use crate::metric::{MetricKind, Subsystem};
use crate::sample::{
    copy_id, distinct_ids, last_wins, lemma_last_wins_distinct, lemma_last_wins_len,
    lemma_last_wins_of_distinct, model, Entity, PerEntitySample,
};

verus! {

/// The processors as sample entries: each with its usage bits as the value.
pub open spec fn cpu_entries(cpus: Seq<CpuReading>) -> Seq<(Seq<u8>, u64)> {
    Seq::new(cpus.len(), |i: int| (cpus[i].id@, cpus[i].usage_bits as u64))
}

/// The volumes as sample entries: each with its available or its total bytes
/// as the value.
pub open spec fn disk_entries(disks: Seq<DiskReading>, available: bool) -> Seq<(Seq<u8>, u64)> {
    Seq::new(
        disks.len(),
        |i: int|
            (
                disks[i].id@,
                if available {
                    disks[i].available_bytes
                } else {
                    disks[i].total_bytes
                },
            ),
    )
}

/// The memory figure that a kind asks for.
pub open spec fn memory_value(memory: MemoryReading, available: bool) -> u64 {
    if available {
        memory.available_bytes
    } else {
        memory.total_bytes
    }
}

/// The sample of `kind` that `readings` hold, as its entries, or the reason
/// why they hold none. Memory is one entity without a name. The sizes of
/// the volumes are no sample where they sum to zero.
pub open spec fn spec_sample(kind: MetricKind, readings: HostReadings) -> Result<
    Seq<(Seq<u8>, u64)>,
    SampleError,
> {
    match kind.spec_subsystem() {
        Subsystem::Cpu => if readings.cpus@.len() == 0 {
            Err(SampleError::Empty)
        } else {
            Ok(last_wins(cpu_entries(readings.cpus@)))
        },
        Subsystem::Memory => if memory_value(readings.memory, kind.spec_is_available()) == 0 {
            Err(SampleError::ZeroValue)
        } else {
            Ok(seq![(Seq::<u8>::empty(), memory_value(readings.memory, kind.spec_is_available()))])
        },
        Subsystem::Disk => if readings.disks@.len() == 0 {
            Err(SampleError::Empty)
        } else if !kind.spec_is_available() && sum_values(
            last_wins(disk_entries(readings.disks@, false)),
        ) == 0 {
            Err(SampleError::ZeroValue)
        } else {
            Ok(last_wins(disk_entries(readings.disks@, kind.spec_is_available())))
        },
    }
}

/// `r` is the sample with the entries `expected`, or fails as `expected`
/// fails.
pub open spec fn sampled_as(
    r: Result<PerEntitySample, SampleError>,
    expected: Result<Seq<(Seq<u8>, u64)>, SampleError>,
) -> bool {
    match r {
        Ok(sample) => expected == Ok::<Seq<(Seq<u8>, u64)>, SampleError>(sample@),
        Err(e) => expected == Err::<Seq<(Seq<u8>, u64)>, SampleError>(e),
    }
}

/// A sample that can be taken names at least one entity, each of them once;
/// a sample of memory names exactly one, with a value above zero, and the
/// sizes of the volumes sum to more than zero. Processors fail only for being
/// none, memory only for a zero, volumes for being none and their sizes also
/// for summing to zero.
pub proof fn lemma_sample_is_populated(kind: MetricKind, readings: HostReadings)
    ensures
        match spec_sample(kind, readings) {
            Ok(s) => {
                &&& s.len() > 0
                &&& distinct_ids(s)
                &&& kind.spec_subsystem() == Subsystem::Memory ==> s.len() == 1 && s[0].1 > 0
                &&& kind == MetricKind::DiskTotal ==> sum_values(s) > 0
            },
            Err(e) => match kind.spec_subsystem() {
                Subsystem::Cpu => e == SampleError::Empty,
                Subsystem::Memory => e == SampleError::ZeroValue,
                Subsystem::Disk => e == SampleError::Empty || (e == SampleError::ZeroValue && kind
                    == MetricKind::DiskTotal),
            },
        },
{
    match kind.spec_subsystem() {
        Subsystem::Cpu => {
            lemma_last_wins_len(cpu_entries(readings.cpus@));
            lemma_last_wins_distinct(cpu_entries(readings.cpus@));
        },
        Subsystem::Memory => {},
        Subsystem::Disk => {
            lemma_last_wins_len(disk_entries(readings.disks@, kind.spec_is_available()));
            lemma_last_wins_distinct(
                disk_entries(readings.disks@, kind.spec_is_available()),
            );
        },
    }
}

/// The processors as sample entries.
fn cpu_entities(cpus: &Vec<CpuReading>) -> (entities: Vec<Entity>)
    ensures
        model(entities@) == cpu_entries(cpus@),
{
    let mut entities: Vec<Entity> = Vec::new();
    let mut i: usize = 0;
    while i < cpus.len()
        invariant
            i <= cpus.len(),
            model(entities@) == cpu_entries(cpus@).take(i as int),
        decreases cpus.len() - i,
    {
        let e = Entity { id: copy_id(&cpus[i].id), value: cpus[i].usage_bits as u64 };
        let ghost before = entities@;
        entities.push(e);
        assert(model(entities@) =~= model(before).push(cpu_entries(cpus@)[i as int]));
        i = i + 1;
    }
    entities
}

/// The volumes as sample entries, with their available or their total bytes.
fn disk_entities(disks: &Vec<DiskReading>, available: bool) -> (entities: Vec<Entity>)
    ensures
        model(entities@) == disk_entries(disks@, available),
{
    let mut entities: Vec<Entity> = Vec::new();
    let mut i: usize = 0;
    while i < disks.len()
        invariant
            i <= disks.len(),
            model(entities@) == disk_entries(disks@, available).take(i as int),
        decreases disks.len() - i,
    {
        let value: u64 = if available {
            disks[i].available_bytes
        } else {
            disks[i].total_bytes
        };
        let e = Entity { id: copy_id(&disks[i].id), value };
        let ghost before = entities@;
        entities.push(e);
        assert(model(entities@) =~= model(before).push(disk_entries(disks@, available)[i as int]));
        i = i + 1;
    }
    entities
}

/// The sample of `kind` that `readings` hold.
pub fn sample_of(kind: MetricKind, readings: &HostReadings) -> (r: Result<
    PerEntitySample,
    SampleError,
>)
    ensures
        sampled_as(r, spec_sample(kind, *readings)),
        r matches Ok(sample) ==> sample.spec_kind() == kind,
{
    match kind.subsystem() {
        Subsystem::Cpu => {
            if readings.cpus.len() == 0 {
                Err(SampleError::Empty)
            } else {
                Ok(PerEntitySample::collect(kind, cpu_entities(&readings.cpus)))
            }
        },
        Subsystem::Memory => {
            let value: u64 = if kind.is_available() {
                readings.memory.available_bytes
            } else {
                readings.memory.total_bytes
            };
            if value == 0 {
                Err(SampleError::ZeroValue)
            } else {
                let mut entities: Vec<Entity> = Vec::new();
                entities.push(Entity { id: Vec::new(), value });
                let ghost s = model(entities@);
                assert(s =~= seq![(Seq::<u8>::empty(), value)]);
                proof {
                    lemma_last_wins_of_distinct(s);
                }
                Ok(PerEntitySample::collect(kind, entities))
            }
        },
        Subsystem::Disk => {
            if readings.disks.len() == 0 {
                Err(SampleError::Empty)
            } else {
                let sample = PerEntitySample::collect(
                    kind,
                    disk_entities(&readings.disks, kind.is_available()),
                );
                if !kind.is_available() && sums_to_zero(&sample) {
                    Err(SampleError::ZeroValue)
                } else {
                    Ok(sample)
                }
            }
        },
    }
}

/// Refreshes one subsystem of the collector and reads it. The other two parts
/// of the result report nothing.
pub fn read_subsystem<C: Collector>(collector: &mut C, subsystem: Subsystem) -> (readings:
    HostReadings)
    ensures
        subsystem != Subsystem::Cpu ==> readings.cpus@.len() == 0,
        subsystem != Subsystem::Memory ==> readings.memory == (MemoryReading {
            total_bytes: 0,
            available_bytes: 0,
        }),
        subsystem != Subsystem::Disk ==> readings.disks@.len() == 0,
{
    let mut readings = HostReadings::nothing();
    match subsystem {
        Subsystem::Cpu => {
            collector.refresh_cpu();
            readings.cpus = collector.list_cpus();
        },
        Subsystem::Memory => {
            collector.refresh_memory();
            let total_bytes: u64 = collector.total_memory_bytes();
            let available_bytes: u64 = collector.available_memory_bytes();
            readings.memory = MemoryReading { total_bytes, available_bytes };
        },
        Subsystem::Disk => {
            readings.disks = collector.list_disks();
        },
    }
    readings
}

/// Refreshes every subsystem of the collector once and reads it.
pub fn read_all<C: Collector>(collector: &mut C) -> (readings: HostReadings) {
    collector.refresh_cpu();
    let cpus = collector.list_cpus();
    collector.refresh_memory();
    let total_bytes: u64 = collector.total_memory_bytes();
    let available_bytes: u64 = collector.available_memory_bytes();
    let disks = collector.list_disks();
    HostReadings { cpus, memory: MemoryReading { total_bytes, available_bytes }, disks }
}

/// Refreshes the subsystem that `kind` belongs to and takes the sample from
/// what the collector then reports: the result is the sample of some
/// readings. So whatever is reported, a sample that is returned names at
/// least one entity and each entity once, and each subsystem fails only in
/// its own ways.
pub fn sample<C: Collector>(collector: &mut C, kind: MetricKind) -> (r: Result<
    PerEntitySample,
    SampleError,
>)
    ensures
        exists|readings: HostReadings| sampled_as(r, #[trigger] spec_sample(kind, readings)),
        match r {
            Ok(sample) => {
                &&& sample.spec_kind() == kind
                &&& sample@.len() > 0
                &&& distinct_ids(sample@)
                &&& kind.spec_subsystem() == Subsystem::Memory ==> sample@.len() == 1 && sample@[0].1
                    > 0
                &&& kind == MetricKind::DiskTotal ==> sum_values(sample@) > 0
            },
            Err(e) => match kind.spec_subsystem() {
                Subsystem::Cpu => e == SampleError::Empty,
                Subsystem::Memory => e == SampleError::ZeroValue,
                Subsystem::Disk => e == SampleError::Empty || (e == SampleError::ZeroValue && kind
                    == MetricKind::DiskTotal),
            },
        },
{
    let readings = read_subsystem(collector, kind.subsystem());
    proof {
        lemma_sample_is_populated(kind, readings);
    }
    sample_of(kind, &readings)
}

} // verus!
