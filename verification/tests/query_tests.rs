use std::cell::Cell;

use collection_learning::aggregate::Policy;
use collection_learning::collector::{
    Collector, CpuReading, DiskReading, HostReadings, MemoryReading,
};
use collection_learning::error::{ErrorKind, SampleError};
use collection_learning::metric::{MetricKind, Subsystem};
use collection_learning::query::{
    cpu_available, cpu_total, disk_summary, figure_of, measure, measure_of, memory_summary,
    summary, summary_of, ResourceSummary,
};
use collection_learning::sampler::{read_all, read_subsystem, sample};

const GIB: u64 = 1 << 30;

fn cpus_at(n: usize, usage: f32) -> Vec<CpuReading> {
    (0..n)
        .map(|i| CpuReading { id: format!("cpu{}", i).into_bytes(), usage_bits: usage.to_bits() })
        .collect()
}

fn disk(id: &str, total_bytes: u64, available_bytes: u64) -> DiskReading {
    DiskReading { id: id.as_bytes().to_vec(), total_bytes, available_bytes }
}

fn readings(cpus: Vec<CpuReading>, memory: (u64, u64), disks: Vec<DiskReading>) -> HostReadings {
    HostReadings {
        cpus,
        memory: MemoryReading { total_bytes: memory.0, available_bytes: memory.1 },
        disks,
    }
}

struct Scripted {
    readings: HostReadings,
    cpu_refreshes: usize,
    cpu_lists: Cell<usize>,
    memory_refreshes: usize,
    memory_reads: Cell<usize>,
    disk_lists: usize,
}

impl Scripted {
    fn new(readings: HostReadings) -> Scripted {
        Scripted {
            readings,
            cpu_refreshes: 0,
            cpu_lists: Cell::new(0),
            memory_refreshes: 0,
            memory_reads: Cell::new(0),
            disk_lists: 0,
        }
    }

    fn calls(&self) -> usize {
        self.cpu_refreshes
            + self.cpu_lists.get()
            + self.memory_refreshes
            + self.memory_reads.get()
            + self.disk_lists
    }
}

impl Collector for Scripted {
    fn refresh_cpu(&mut self) {
        self.cpu_refreshes += 1;
    }

    fn list_cpus(&self) -> Vec<CpuReading> {
        self.cpu_lists.set(self.cpu_lists.get() + 1);
        self.readings.cpus.clone()
    }

    fn refresh_memory(&mut self) {
        self.memory_refreshes += 1;
    }

    fn total_memory_bytes(&self) -> u64 {
        self.memory_reads.set(self.memory_reads.get() + 1);
        self.readings.memory.total_bytes
    }

    fn available_memory_bytes(&self) -> u64 {
        self.memory_reads.set(self.memory_reads.get() + 1);
        self.readings.memory.available_bytes
    }

    fn list_disks(&mut self) -> Vec<DiskReading> {
        self.disk_lists += 1;
        self.readings.disks.clone()
    }
}

fn healthy() -> HostReadings {
    readings(
        cpus_at(16, 10.0),
        (16 * GIB, 7 * GIB),
        vec![disk("sda1", 500 * GIB, 200 * GIB), disk("sdb1", 1000 * GIB, 900 * GIB)],
    )
}

#[test]
fn sixteen_idle_processors_are_all_available() {
    let r = readings(cpus_at(16, 10.0), (0, 0), Vec::new());
    let policy = Policy::default();
    assert_eq!(measure_of(MetricKind::CpuTotal, &r, &policy), Ok(16));
    assert_eq!(measure_of(MetricKind::CpuAvailable, &r, &policy), Ok(16));
    let mut collector = Scripted::new(r);
    assert_eq!(cpu_total(&mut collector), Ok(16));
    assert_eq!(cpu_available(&mut collector, &policy), Ok(16));
}

#[test]
fn busy_processors_are_not_available() {
    let mut cpus = cpus_at(4, 10.0);
    cpus[1].usage_bits = 95.0f32.to_bits();
    cpus[2].usage_bits = 95.0001f32.to_bits();
    cpus[3].usage_bits = 100.0f32.to_bits();
    let r = readings(cpus, (0, 0), Vec::new());
    assert_eq!(measure_of(MetricKind::CpuTotal, &r, &Policy::default()), Ok(4));
    assert_eq!(measure_of(MetricKind::CpuAvailable, &r, &Policy::default()), Ok(2));
    let summary = summary_of(Subsystem::Cpu, &r, &Policy::default()).unwrap();
    assert_eq!(summary.total(), 4);
    assert_eq!(summary.available(), 2);
    assert_eq!(summary.used(), 2);
}

#[test]
fn no_processors_is_collector_unavailable() {
    let r = readings(Vec::new(), (GIB, GIB), vec![disk("sda1", 1, 1)]);
    assert_eq!(
        measure_of(MetricKind::CpuTotal, &r, &Policy::default()),
        Err(ErrorKind::CollectorUnavailable)
    );
    assert_eq!(
        measure_of(MetricKind::CpuAvailable, &r, &Policy::default()),
        Err(ErrorKind::CollectorUnavailable)
    );
    let mut collector = Scripted::new(r);
    assert_eq!(cpu_total(&mut collector), Err(ErrorKind::CollectorUnavailable));
    assert_eq!(
        cpu_available(&mut collector, &Policy::default()),
        Err(ErrorKind::CollectorUnavailable)
    );
}

#[test]
fn no_volumes_is_collector_unavailable() {
    let r = readings(cpus_at(2, 1.0), (GIB, GIB), Vec::new());
    assert_eq!(
        summary_of(Subsystem::Disk, &r, &Policy::default()),
        Err(ErrorKind::CollectorUnavailable)
    );
    assert_eq!(
        measure_of(MetricKind::DiskTotal, &r, &Policy::default()),
        Err(ErrorKind::CollectorUnavailable)
    );
    let mut collector = Scripted::new(r);
    assert_eq!(disk_summary(&mut collector), Err(ErrorKind::CollectorUnavailable));
}

#[test]
fn zero_available_memory_is_an_invalid_zero_reading() {
    let r = readings(cpus_at(2, 1.0), (16 * GIB, 0), vec![disk("sda1", 1, 1)]);
    assert_eq!(
        summary_of(Subsystem::Memory, &r, &Policy::default()),
        Err(ErrorKind::InvalidZeroReading)
    );
    assert_eq!(
        measure_of(MetricKind::MemAvailable, &r, &Policy::default()),
        Err(ErrorKind::InvalidZeroReading)
    );
    assert_eq!(measure_of(MetricKind::MemTotal, &r, &Policy::default()), Ok(16 * GIB));
    let mut collector = Scripted::new(r);
    assert_eq!(memory_summary(&mut collector), Err(ErrorKind::InvalidZeroReading));
}

#[test]
fn zero_total_memory_is_an_invalid_zero_reading() {
    let r = readings(Vec::new(), (0, 5), Vec::new());
    assert_eq!(
        summary_of(Subsystem::Memory, &r, &Policy::default()),
        Err(ErrorKind::InvalidZeroReading)
    );
    assert_eq!(
        measure_of(MetricKind::MemTotal, &r, &Policy::default()),
        Err(ErrorKind::InvalidZeroReading)
    );
}

#[test]
fn memory_summary_reports_both_figures() {
    let mut collector = Scripted::new(healthy());
    let summary = memory_summary(&mut collector).unwrap();
    assert_eq!(summary.total(), 16 * GIB);
    assert_eq!(summary.available(), 7 * GIB);
    assert_eq!(summary.used(), 9 * GIB);
    assert_eq!(collector.memory_refreshes, 1);
    assert_eq!(collector.cpu_lists.get(), 0);
    assert_eq!(collector.disk_lists, 0);
}

#[test]
fn more_memory_available_than_installed_is_rejected() {
    let r = readings(Vec::new(), (4 * GIB, 4 * GIB + 1), Vec::new());
    assert_eq!(
        summary_of(Subsystem::Memory, &r, &Policy::default()),
        Err(ErrorKind::InconsistentReading)
    );
    assert_eq!(
        measure_of(MetricKind::MemAvailable, &r, &Policy::default()),
        Err(ErrorKind::InconsistentReading)
    );
    assert_eq!(measure_of(MetricKind::MemTotal, &r, &Policy::default()), Ok(4 * GIB));
    assert_eq!(figure_of(MetricKind::MemAvailable, &r, &Policy::default()), Ok(4 * GIB + 1));
    let mut collector = Scripted::new(r);
    assert_eq!(memory_summary(&mut collector), Err(ErrorKind::InconsistentReading));
    assert_eq!(
        measure(&mut collector, MetricKind::MemAvailable, &Policy::default()),
        Err(ErrorKind::InconsistentReading)
    );
    let edge = readings(Vec::new(), (4 * GIB, 4 * GIB), Vec::new());
    let summary = summary_of(Subsystem::Memory, &edge, &Policy::default()).unwrap();
    assert_eq!(summary.available(), summary.total());
    assert_eq!(summary.used(), 0);
    assert_eq!(measure_of(MetricKind::MemAvailable, &edge, &Policy::default()), Ok(4 * GIB));
}

#[test]
fn available_memory_of_a_hundred_installed_cannot_be_two_hundred() {
    let r = readings(Vec::new(), (100, 200), Vec::new());
    assert_eq!(
        measure_of(MetricKind::MemAvailable, &r, &Policy::default()),
        Err(ErrorKind::InconsistentReading)
    );
    let fine = readings(Vec::new(), (200, 100), Vec::new());
    assert_eq!(measure_of(MetricKind::MemAvailable, &fine, &Policy::default()), Ok(100));
}

#[test]
fn available_memory_fails_where_the_total_is_zero() {
    let r = readings(Vec::new(), (0, 5), Vec::new());
    assert_eq!(
        measure_of(MetricKind::MemAvailable, &r, &Policy::default()),
        Err(ErrorKind::InvalidZeroReading)
    );
    assert_eq!(figure_of(MetricKind::MemAvailable, &r, &Policy::default()), Ok(5));
}

#[test]
fn disk_summary_adds_up_the_volumes() {
    let mut collector = Scripted::new(healthy());
    let summary = disk_summary(&mut collector).unwrap();
    assert_eq!(summary.total(), 1500 * GIB);
    assert_eq!(summary.available(), 1100 * GIB);
    assert_eq!(summary.used(), 400 * GIB);
    assert_eq!(collector.disk_lists, 1);
    assert_eq!(collector.cpu_lists.get(), 0);
}

#[test]
fn disk_summary_counts_a_device_under_two_mount_points_once() {
    let r = readings(
        Vec::new(),
        (0, 0),
        vec![
            disk("sda1", 500 * GIB, 200 * GIB),
            disk("sdb1", 100 * GIB, 10 * GIB),
            disk("sda1", 500 * GIB, 199 * GIB),
        ],
    );
    let summary = summary_of(Subsystem::Disk, &r, &Policy::default()).unwrap();
    assert_eq!(summary.total(), 600 * GIB);
    assert_eq!(summary.available(), 209 * GIB);
}

#[test]
fn more_disk_space_available_than_there_is_is_rejected() {
    let r = readings(Vec::new(), (0, 0), vec![disk("sda1", 100, 40), disk("sdb1", 10, 80)]);
    assert_eq!(
        summary_of(Subsystem::Disk, &r, &Policy::default()),
        Err(ErrorKind::InconsistentReading)
    );
    assert_eq!(measure_of(MetricKind::DiskTotal, &r, &Policy::default()), Ok(110));
    assert_eq!(
        measure_of(MetricKind::DiskAvailable, &r, &Policy::default()),
        Err(ErrorKind::InconsistentReading)
    );
    assert_eq!(figure_of(MetricKind::DiskAvailable, &r, &Policy::default()), Ok(120));
    let mut collector = Scripted::new(r);
    assert_eq!(disk_summary(&mut collector), Err(ErrorKind::InconsistentReading));
    assert_eq!(
        measure(&mut collector, MetricKind::DiskAvailable, &Policy::default()),
        Err(ErrorKind::InconsistentReading)
    );
}

#[test]
fn one_volume_of_a_hundred_cannot_have_two_hundred_available() {
    let r = readings(Vec::new(), (0, 0), vec![disk("sda1", 100, 200)]);
    assert_eq!(
        measure_of(MetricKind::DiskAvailable, &r, &Policy::default()),
        Err(ErrorKind::InconsistentReading)
    );
    assert_eq!(measure_of(MetricKind::DiskTotal, &r, &Policy::default()), Ok(100));
    let fine = readings(Vec::new(), (0, 0), vec![disk("sda1", 200, 100)]);
    assert_eq!(measure_of(MetricKind::DiskAvailable, &fine, &Policy::default()), Ok(100));
}

#[test]
fn zero_disk_capacity_is_an_invalid_zero_reading() {
    let policy = Policy::default();
    for disks in [vec![disk("sda1", 0, 0)], vec![disk("sda1", 0, 0), disk("sdb1", 0, 0)]] {
        let r = readings(Vec::new(), (0, 0), disks);
        assert_eq!(
            measure_of(MetricKind::DiskTotal, &r, &policy),
            Err(ErrorKind::InvalidZeroReading)
        );
        assert_eq!(
            measure_of(MetricKind::DiskAvailable, &r, &policy),
            Err(ErrorKind::InvalidZeroReading)
        );
        assert_eq!(summary_of(Subsystem::Disk, &r, &policy), Err(ErrorKind::InvalidZeroReading));
        assert_eq!(figure_of(MetricKind::DiskAvailable, &r, &policy), Ok(0));
        let mut collector = Scripted::new(r);
        assert_eq!(disk_summary(&mut collector), Err(ErrorKind::InvalidZeroReading));
        assert_eq!(
            measure(&mut collector, MetricKind::DiskTotal, &policy),
            Err(ErrorKind::InvalidZeroReading)
        );
    }
}

#[test]
fn a_volume_of_no_size_beside_a_real_one_is_no_error() {
    let r = readings(Vec::new(), (0, 0), vec![disk("sda1", 0, 0), disk("sdb1", 10, 5)]);
    assert_eq!(measure_of(MetricKind::DiskTotal, &r, &Policy::default()), Ok(10));
    assert_eq!(measure_of(MetricKind::DiskAvailable, &r, &Policy::default()), Ok(5));
}

#[test]
fn a_real_volume_listed_again_with_no_size_counts_as_last_listed() {
    let r = readings(Vec::new(), (0, 0), vec![disk("sda1", 10, 5), disk("sda1", 0, 0)]);
    assert_eq!(
        measure_of(MetricKind::DiskTotal, &r, &Policy::default()),
        Err(ErrorKind::InvalidZeroReading)
    );
}

#[test]
fn full_volumes_are_no_error() {
    let r = readings(Vec::new(), (0, 0), vec![disk("sda1", 10, 0), disk("sdb1", 20, 0)]);
    assert_eq!(measure_of(MetricKind::DiskAvailable, &r, &Policy::default()), Ok(0));
    let s = summary_of(Subsystem::Disk, &r, &Policy::default()).unwrap();
    assert_eq!((s.total(), s.available(), s.used()), (30, 0, 30));
}

#[test]
fn processors_with_distinct_names_are_all_counted() {
    for n in 1..20 {
        let r = readings(cpus_at(n, 50.0), (0, 0), Vec::new());
        assert_eq!(measure_of(MetricKind::CpuTotal, &r, &Policy::default()), Ok(n as u64));
        let available = measure_of(MetricKind::CpuAvailable, &r, &Policy::default()).unwrap();
        assert!(available <= n as u64);
    }
}

#[test]
fn processors_listed_under_one_name_count_once() {
    let mut cpus = cpus_at(3, 10.0);
    cpus[2].id = cpus[0].id.clone();
    cpus[2].usage_bits = 99.0f32.to_bits();
    let r = readings(cpus, (0, 0), Vec::new());
    assert_eq!(measure_of(MetricKind::CpuTotal, &r, &Policy::default()), Ok(2));
    assert_eq!(measure_of(MetricKind::CpuAvailable, &r, &Policy::default()), Ok(1));
}

#[test]
fn disk_sizes_beyond_sixty_four_bits_overflow() {
    let r = readings(Vec::new(), (0, 0), vec![disk("sda1", u64::MAX, 1), disk("sdb1", 1, 1)]);
    assert_eq!(
        measure_of(MetricKind::DiskTotal, &r, &Policy::default()),
        Err(ErrorKind::NumericOverflow)
    );
    assert_eq!(
        summary_of(Subsystem::Disk, &r, &Policy::default()),
        Err(ErrorKind::NumericOverflow)
    );
    assert_eq!(
        measure_of(MetricKind::DiskAvailable, &r, &Policy::default()),
        Err(ErrorKind::NumericOverflow)
    );
    assert_eq!(figure_of(MetricKind::DiskAvailable, &r, &Policy::default()), Ok(2));
}

#[test]
fn resource_summary_rejects_more_available_than_total() {
    assert_eq!(ResourceSummary::new(10, 11), None);
    let s = ResourceSummary::new(10, 10).unwrap();
    assert_eq!((s.total(), s.available(), s.used()), (10, 10, 0));
    let s = ResourceSummary::new(10, 0).unwrap();
    assert_eq!((s.total(), s.available(), s.used()), (10, 0, 10));
    let s = ResourceSummary::new(0, 0).unwrap();
    assert_eq!((s.total(), s.available(), s.used()), (0, 0, 0));
}

#[test]
fn available_never_exceeds_total_in_any_summary() {
    let memories = [(0u64, 0u64), (1, 0), (0, 1), (5, 5), (5, 6), (u64::MAX, 1), (1, u64::MAX)];
    let disk_sets = vec![
        Vec::new(),
        vec![disk("a", 0, 0)],
        vec![disk("a", 5, 9)],
        vec![disk("a", 5, 9), disk("b", 10, 1)],
        vec![disk("a", 5, 9), disk("a", 9, 5)],
        vec![disk("a", u64::MAX, 0), disk("b", u64::MAX, 0)],
    ];
    for memory in memories.iter() {
        for disks in disk_sets.iter() {
            for n in 0..3 {
                let r = readings(cpus_at(n, 96.0), *memory, disks.clone());
                for subsystem in [Subsystem::Cpu, Subsystem::Memory, Subsystem::Disk] {
                    if let Ok(s) = summary_of(subsystem, &r, &Policy::default()) {
                        assert!(s.available() <= s.total());
                    }
                }
            }
        }
    }
}

#[test]
fn measure_reads_only_the_subsystem_of_the_kind() {
    let mut collector = Scripted::new(healthy());
    assert_eq!(measure(&mut collector, MetricKind::MemTotal, &Policy::default()), Ok(16 * GIB));
    assert_eq!(collector.memory_refreshes, 1);
    assert_eq!(collector.cpu_refreshes, 0);
    assert_eq!(collector.disk_lists, 0);
    assert_eq!(
        measure(&mut collector, MetricKind::DiskAvailable, &Policy::default()),
        Ok(1100 * GIB)
    );
    assert_eq!(collector.disk_lists, 1);
    assert_eq!(measure(&mut collector, MetricKind::CpuTotal, &Policy::default()), Ok(16));
    assert_eq!(collector.cpu_refreshes, 1);
    assert_eq!(collector.cpu_lists.get(), 1);
}

#[test]
fn summary_reads_its_subsystem_once() {
    let mut collector = Scripted::new(healthy());
    let s = summary(&mut collector, Subsystem::Cpu, &Policy::default()).unwrap();
    assert_eq!((s.total(), s.available()), (16, 16));
    assert_eq!(collector.cpu_refreshes, 1);
    assert_eq!(collector.cpu_lists.get(), 1);
    assert_eq!(collector.calls(), 2);
}

#[test]
fn sample_refreshes_before_it_reads() {
    let mut collector = Scripted::new(healthy());
    let s = sample(&mut collector, MetricKind::CpuAvailable).unwrap();
    assert_eq!(s.len(), 16);
    assert_eq!(s.kind(), MetricKind::CpuAvailable);
    assert_eq!(collector.cpu_refreshes, 1);
    assert_eq!(collector.cpu_lists.get(), 1);
    let s = sample(&mut collector, MetricKind::MemAvailable).unwrap();
    assert_eq!(s.len(), 1);
    assert_eq!(s.lookup(&Vec::new()), Some(7 * GIB));
    assert_eq!(collector.memory_refreshes, 1);
    let s = sample(&mut collector, MetricKind::DiskTotal).unwrap();
    assert_eq!(s.lookup(&b"sdb1".to_vec()), Some(1000 * GIB));
}

#[test]
fn sample_fails_as_the_collector_reports() {
    let mut collector = Scripted::new(readings(Vec::new(), (0, 0), Vec::new()));
    assert_eq!(sample(&mut collector, MetricKind::CpuTotal).err(), Some(SampleError::Empty));
    assert_eq!(sample(&mut collector, MetricKind::MemTotal).err(), Some(SampleError::ZeroValue));
    assert_eq!(sample(&mut collector, MetricKind::MemAvailable).err(), Some(SampleError::ZeroValue));
    assert_eq!(sample(&mut collector, MetricKind::DiskAvailable).err(), Some(SampleError::Empty));
    let mut unsized_volume =
        Scripted::new(readings(Vec::new(), (0, 0), vec![disk("sda1", 0, 0)]));
    assert_eq!(
        sample(&mut unsized_volume, MetricKind::DiskTotal).err(),
        Some(SampleError::ZeroValue)
    );
    assert!(sample(&mut unsized_volume, MetricKind::DiskAvailable).is_ok());
}

#[test]
fn read_subsystem_leaves_the_others_blank() {
    let mut collector = Scripted::new(healthy());
    let r = read_subsystem(&mut collector, Subsystem::Memory);
    assert!(r.cpus.is_empty());
    assert!(r.disks.is_empty());
    assert_eq!(r.memory, MemoryReading { total_bytes: 16 * GIB, available_bytes: 7 * GIB });
    let r = read_subsystem(&mut collector, Subsystem::Disk);
    assert!(r.cpus.is_empty());
    assert_eq!(r.memory, MemoryReading { total_bytes: 0, available_bytes: 0 });
    assert_eq!(r.disks.len(), 2);
    let r = read_subsystem(&mut collector, Subsystem::Cpu);
    assert_eq!(r.cpus.len(), 16);
    assert!(r.disks.is_empty());
}

#[test]
fn read_all_reads_every_subsystem_once() {
    let mut collector = Scripted::new(healthy());
    let r = read_all(&mut collector);
    assert_eq!(r, healthy());
    assert_eq!(collector.cpu_refreshes, 1);
    assert_eq!(collector.cpu_lists.get(), 1);
    assert_eq!(collector.memory_refreshes, 1);
    assert_eq!(collector.memory_reads.get(), 2);
    assert_eq!(collector.disk_lists, 1);
    assert_eq!(HostReadings::nothing(), readings(Vec::new(), (0, 0), Vec::new()));
}
