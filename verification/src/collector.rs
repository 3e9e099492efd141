//! The source of raw readings, and the readings it hands out.

use vstd::prelude::*;

verus! {

/// One processor as the collector lists it: its name and its usage, the
/// latter as the bits of a single-precision percentage.
#[derive(Clone, Debug, PartialEq, Eq)]
pub struct CpuReading {
    pub id: Vec<u8>,
    pub usage_bits: u32,
}

/// One volume as the collector lists it: its device name and its sizes.
#[derive(Clone, Debug, PartialEq, Eq)]
pub struct DiskReading {
    pub id: Vec<u8>,
    pub total_bytes: u64,
    pub available_bytes: u64,
}

/// The two memory figures of one refresh.
#[derive(Clone, Copy, Debug, PartialEq, Eq, Structural)]
pub struct MemoryReading {
    pub total_bytes: u64,
    pub available_bytes: u64,
}

/// Everything a collector reports, as of one round of refreshes.
#[derive(Clone, Debug, PartialEq, Eq)]
pub struct HostReadings {
    pub cpus: Vec<CpuReading>,
    pub memory: MemoryReading,
    pub disks: Vec<DiskReading>,
}

impl HostReadings {
    /// Readings that report nothing: no processor, no memory, no volume.
    pub fn nothing() -> (readings: HostReadings)
        ensures
            readings.cpus@.len() == 0,
            readings.memory == (MemoryReading { total_bytes: 0, available_bytes: 0 }),
            readings.disks@.len() == 0,
    {
        HostReadings {
            cpus: Vec::new(),
            memory: MemoryReading { total_bytes: 0, available_bytes: 0 },
            disks: Vec::new(),
        }
    }
}

/// What the sampler needs from the operating system. No method promises
/// anything of what it returns: every caller in this crate is verified for
/// all outcomes.
pub trait Collector {
    /// Brings the processor figures up to date.
    fn refresh_cpu(&mut self);

    /// The processors, as of the last refresh.
    fn list_cpus(&self) -> Vec<CpuReading>;

    /// Brings the memory figures up to date.
    fn refresh_memory(&mut self);

    /// Installed memory in bytes, as of the last refresh.
    fn total_memory_bytes(&self) -> u64;

    /// Memory available for use in bytes, as of the last refresh.
    fn available_memory_bytes(&self) -> u64;

    /// Enumerates the volumes afresh.
    fn list_disks(&mut self) -> Vec<DiskReading>;
}

} // verus!
