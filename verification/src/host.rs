//! The operating system as a collector, through `sysinfo`.
//!
//! What `sysinfo` reports depends on the machine and the moment, so nothing
//! is claimed of it here: the declarations below only make its types known
//! and its functions callable. Everything decided from what it reports is
//! decided by verified code, for whatever it reports.

use vstd::prelude::*;
use crate::aggregate::Policy;
use crate::collector::{Collector, CpuReading, DiskReading, HostReadings};
use crate::error::ErrorKind;
use crate::metric::MetricKind;
use crate::query::{lemma_measure_outcomes, measure, measure_of, spec_measure};

verus! {

/// `sysinfo::System`, the handle through which processor and memory figures
/// are refreshed and read. Nothing is known of its contents.
#[verifier::external_type_specification]
#[verifier::external_body]
pub struct ExSystem(sysinfo::System);

/// `sysinfo::Cpu`, one processor as `sysinfo::System::cpus` lists it.
#[verifier::external_type_specification]
#[verifier::external_body]
pub struct ExCpu(sysinfo::Cpu);

/// `sysinfo::Disks`, an enumeration of the mounted volumes.
#[verifier::external_type_specification]
#[verifier::external_body]
pub struct ExDisks(sysinfo::Disks);

/// `sysinfo::Disk`, one mounted volume.
#[verifier::external_type_specification]
#[verifier::external_body]
pub struct ExDisk(sysinfo::Disk);

/// `sysinfo::DiskRefreshKind`, what an enumeration is to read about each
/// volume.
#[verifier::external_type_specification]
#[verifier::external_body]
pub struct ExDiskRefreshKind(sysinfo::DiskRefreshKind);

/// Calls `sysinfo::System::refresh_cpu_all`, which re-reads the load of the
/// listed processors, and lists them first where none was listed. Nothing is
/// claimed of the state it leaves.
#[verifier::external_body]
fn refresh_cpu_figures(sys: &mut sysinfo::System) {
    sys.refresh_cpu_all();
}

/// Calls `sysinfo::System::cpus`, which hands out the listed processors.
/// Nothing is claimed of how many there are.
#[verifier::external_body]
fn listed_cpus(sys: &sysinfo::System) -> (cpus: &[sysinfo::Cpu]) {
    sys.cpus()
}

/// Calls `sysinfo::Cpu::cpu_usage`, which gives the load of one processor as
/// a single-precision percentage, and hands on the bits of that number.
/// Nothing is claimed of them.
#[verifier::external_body]
fn cpu_usage_bits(cpu: &sysinfo::Cpu) -> (bits: u32) {
    cpu.cpu_usage().to_bits()
}

/// Calls `sysinfo::Cpu::name`, which gives the name under which the system
/// lists one processor, and hands on the bytes of that name. Nothing is
/// claimed of them.
#[verifier::external_body]
fn cpu_name(cpu: &sysinfo::Cpu) -> (name: Vec<u8>) {
    cpu.name().as_bytes().to_vec()
}

/// Calls `sysinfo::System::refresh_memory`, which re-reads the memory
/// figures. Nothing is claimed of the state it leaves.
#[verifier::external_body]
fn refresh_memory_figures(sys: &mut sysinfo::System) {
    sysinfo::System::refresh_memory(sys);
}

/// Calls `sysinfo::System::total_memory`, which gives the installed memory in
/// bytes as of the last refresh, zero where none took place. Nothing is
/// claimed of the value.
#[verifier::external_body]
fn installed_memory(sys: &sysinfo::System) -> (bytes: u64) {
    sys.total_memory()
}

/// Calls `sysinfo::System::available_memory`, which gives the memory
/// available for use in bytes as of the last refresh. Nothing is claimed of
/// the value.
#[verifier::external_body]
fn usable_memory(sys: &sysinfo::System) -> (bytes: u64) {
    sys.available_memory()
}

/// Calls `sysinfo::DiskRefreshKind::nothing`, which gives the request to
/// read nothing about a volume.
#[verifier::external_body]
fn nothing_of_a_disk() -> (kind: sysinfo::DiskRefreshKind) {
    sysinfo::DiskRefreshKind::nothing()
}

/// Calls `sysinfo::DiskRefreshKind::with_storage`, which adds the sizes of a
/// volume to what a request asks for.
#[verifier::external_body]
fn with_sizes(kind: sysinfo::DiskRefreshKind) -> (wider: sysinfo::DiskRefreshKind) {
    kind.with_storage()
}

/// Calls `sysinfo::Disks::new_with_refreshed_list_specifics`, which
/// enumerates the mounted volumes and reads of each what `kind` asks for.
/// Nothing is claimed of what it finds.
#[verifier::external_body]
fn enumerate_disks(kind: sysinfo::DiskRefreshKind) -> (disks: sysinfo::Disks) {
    sysinfo::Disks::new_with_refreshed_list_specifics(kind)
}

/// Calls `sysinfo::Disks::list`, which hands out the enumerated volumes.
/// Nothing is claimed of how many there are.
#[verifier::external_body]
fn listed_disks(disks: &sysinfo::Disks) -> (list: &[sysinfo::Disk]) {
    disks.list()
}

/// Calls `sysinfo::Disk::name`, which gives the device name of a volume, and
/// hands on the bytes of that name. Nothing is claimed of them.
#[verifier::external_body]
fn disk_name(disk: &sysinfo::Disk) -> (name: Vec<u8>) {
    disk.name().as_encoded_bytes().to_vec()
}

/// Calls `sysinfo::Disk::total_space`, which gives the size of a volume in
/// bytes. Nothing is claimed of the value.
#[verifier::external_body]
fn disk_size(disk: &sysinfo::Disk) -> (bytes: u64) {
    disk.total_space()
}

/// Calls `sysinfo::Disk::available_space`, which gives the free space of a
/// volume in bytes. Nothing is claimed of the value; in particular not that
/// it is at most the size.
#[verifier::external_body]
fn disk_free(disk: &sysinfo::Disk) -> (bytes: u64) {
    disk.available_space()
}

impl Collector for sysinfo::System {
    fn refresh_cpu(&mut self) {
        refresh_cpu_figures(self);
    }

    fn list_cpus(&self) -> Vec<CpuReading> {
        let cpus = listed_cpus(self);
        let mut readings: Vec<CpuReading> = Vec::new();
        let mut i: usize = 0;
        while i < cpus.len()
            invariant
                i <= cpus.len(),
                readings.len() == i,
            decreases cpus.len() - i,
        {
            readings.push(CpuReading { id: cpu_name(&cpus[i]), usage_bits: cpu_usage_bits(&cpus[i]) });
            i = i + 1;
        }
        readings
    }

    fn refresh_memory(&mut self) {
        refresh_memory_figures(self);
    }

    fn total_memory_bytes(&self) -> u64 {
        installed_memory(self)
    }

    fn available_memory_bytes(&self) -> u64 {
        usable_memory(self)
    }

    /// The volumes are enumerated anew at every call; the system handle takes
    /// no part in it.
    fn list_disks(&mut self) -> Vec<DiskReading> {
        host_volumes()
    }
}

/// Enumerates the mounted volumes of this host and reads the name and the
/// sizes of each. Only the sizes are asked of `sysinfo`: neither the kind of
/// device nor its traffic is needed here.
fn host_volumes() -> (readings: Vec<DiskReading>) {
    let disks = enumerate_disks(with_sizes(nothing_of_a_disk()));
    let list = listed_disks(&disks);
    let mut readings: Vec<DiskReading> = Vec::new();
    let mut i: usize = 0;
    while i < list.len()
        invariant
            i <= list.len(),
            readings.len() == i,
        decreases list.len() - i,
    {
        readings.push(
            DiskReading {
                id: disk_name(&list[i]),
                total_bytes: disk_size(&list[i]),
                available_bytes: disk_free(&list[i]),
            },
        );
        i = i + 1;
    }
    readings
}

/// Measures a kind of disk space on the volumes of this host. No system
/// handle is needed for that and none is touched.
fn measure_volumes(kind: MetricKind) -> (r: Result<u64, ErrorKind>)
    requires
        kind == MetricKind::DiskTotal || kind == MetricKind::DiskAvailable,
    ensures
        exists|readings: HostReadings| #[trigger]
            spec_measure(kind, readings, Policy::spec_default()) == r,
        match r {
            Ok(bytes) => kind == MetricKind::DiskTotal ==> bytes > 0,
            Err(e) => e == ErrorKind::CollectorUnavailable || e == ErrorKind::InvalidZeroReading
                || e == ErrorKind::NumericOverflow || (e == ErrorKind::InconsistentReading && kind
                == MetricKind::DiskAvailable),
        },
{
    let mut readings = HostReadings::nothing();
    readings.disks = host_volumes();
    proof {
        lemma_measure_outcomes(kind, readings, Policy::spec_default());
    }
    measure_of(kind, &readings, &Policy::default())
}

/// `r` is the count `expected`, or fails as `expected` fails.
pub open spec fn counted_as(r: Result<usize, ErrorKind>, expected: Result<u64, ErrorKind>) -> bool {
    match r {
        Ok(n) => expected == Ok::<u64, ErrorKind>(n as u64),
        Err(e) => expected == Err::<u64, ErrorKind>(e),
    }
}

/// How many processors this host has.
pub fn total_num_cpus(sys: &mut sysinfo::System) -> (r: Result<usize, ErrorKind>)
    ensures
        exists|readings: HostReadings|
            counted_as(
                r,
                #[trigger] spec_measure(MetricKind::CpuTotal, readings, Policy::spec_default()),
            ),
        match r {
            Ok(n) => n > 0,
            Err(e) => e == ErrorKind::CollectorUnavailable,
        },
{
    match measure(sys, MetricKind::CpuTotal, &Policy::default()) {
        Ok(n) => Ok(n as usize),
        Err(e) => Err(e),
    }
}

/// How many processors of this host are used no more than 95 percent.
pub fn availabe_num_cpus(sys: &mut sysinfo::System) -> (r: Result<usize, ErrorKind>)
    ensures
        exists|readings: HostReadings|
            counted_as(
                r,
                #[trigger] spec_measure(MetricKind::CpuAvailable, readings, Policy::spec_default()),
            ),
        r matches Err(e) ==> e == ErrorKind::CollectorUnavailable,
{
    match measure(sys, MetricKind::CpuAvailable, &Policy::default()) {
        Ok(n) => Ok(n as usize),
        Err(e) => Err(e),
    }
}

/// The installed memory of this host, in bytes.
pub fn total_memory(sys: &mut sysinfo::System) -> (r: Result<u64, ErrorKind>)
    ensures
        exists|readings: HostReadings| #[trigger]
            spec_measure(MetricKind::MemTotal, readings, Policy::spec_default()) == r,
        match r {
            Ok(bytes) => bytes > 0,
            Err(e) => e == ErrorKind::InvalidZeroReading,
        },
{
    measure(sys, MetricKind::MemTotal, &Policy::default())
}

/// The memory of this host that is available for use, in bytes. It is held
/// against the installed memory as read at the same refresh.
pub fn available_memory(sys: &mut sysinfo::System) -> (r: Result<u64, ErrorKind>)
    ensures
        exists|readings: HostReadings| #[trigger]
            spec_measure(MetricKind::MemAvailable, readings, Policy::spec_default()) == r,
        match r {
            Ok(bytes) => bytes > 0,
            Err(e) => e == ErrorKind::InvalidZeroReading || e == ErrorKind::InconsistentReading,
        },
{
    measure(sys, MetricKind::MemAvailable, &Policy::default())
}

/// The size of all volumes of this host together, in bytes, every volume
/// counted once. The system handle is left as it was.
#[allow(unused_variables)]
pub fn total_space(sys: &mut sysinfo::System) -> (r: Result<u64, ErrorKind>)
    ensures
        *final(sys) == *old(sys),
        exists|readings: HostReadings| #[trigger]
            spec_measure(MetricKind::DiskTotal, readings, Policy::spec_default()) == r,
        match r {
            Ok(bytes) => bytes > 0,
            Err(e) => e == ErrorKind::CollectorUnavailable || e == ErrorKind::InvalidZeroReading
                || e == ErrorKind::NumericOverflow,
        },
{
    measure_volumes(MetricKind::DiskTotal)
}

/// The free space of all volumes of this host together, in bytes, every
/// volume counted once. It is held against the size of the same volumes. The
/// system handle is left as it was.
#[allow(unused_variables)]
pub fn available_space(sys: &mut sysinfo::System) -> (r: Result<u64, ErrorKind>)
    ensures
        *final(sys) == *old(sys),
        exists|readings: HostReadings| #[trigger]
            spec_measure(MetricKind::DiskAvailable, readings, Policy::spec_default()) == r,
        r matches Err(e) ==> e == ErrorKind::CollectorUnavailable || e
            == ErrorKind::InvalidZeroReading || e == ErrorKind::NumericOverflow || e
            == ErrorKind::InconsistentReading,
{
    measure_volumes(MetricKind::DiskAvailable)
}

} // verus!
