use collection_learning::aggregate::Policy;
use collection_learning::collector::{CpuReading, DiskReading, HostReadings, MemoryReading};
use collection_learning::health::{classify, is_low, HealthStatus};
use collection_learning::metric::{KindSet, MetricKind, MetricReading, Unit};
use collection_learning::snapshot::{assemble, Snapshot};

const GIB: u64 = 1 << 30;

fn complete(taken_at: u64, values: [u64; 6]) -> Snapshot {
    let mut s = Snapshot::new(taken_at);
    for (kind, value) in MetricKind::all().into_iter().zip(values) {
        s = s.with_value(kind, value);
    }
    s
}

fn cpus_at(n: usize, usage: f32) -> Vec<CpuReading> {
    (0..n)
        .map(|i| CpuReading { id: format!("cpu{}", i).into_bytes(), usage_bits: usage.to_bits() })
        .collect()
}

fn disk(id: &str, total_bytes: u64, available_bytes: u64) -> DiskReading {
    DiskReading { id: id.as_bytes().to_vec(), total_bytes, available_bytes }
}

#[test]
fn new_snapshot_holds_nothing() {
    let s = Snapshot::new(7);
    assert_eq!(s.taken_at(), 7);
    for kind in MetricKind::all() {
        assert_eq!(s.value(kind), None);
        assert_eq!(s.get(kind), None);
        assert!(s.rejects(kind));
    }
    assert!(!s.is_complete());
    assert!(!s.is_sound());
    assert_eq!(s.failed(), KindSet::full());
}

#[test]
fn with_value_holds_a_reading_of_the_snapshots_instant() {
    let s = Snapshot::new(7).with_value(MetricKind::MemTotal, 16 * GIB);
    assert_eq!(s.value(MetricKind::MemTotal), Some(16 * GIB));
    assert_eq!(
        s.get(MetricKind::MemTotal),
        Some(MetricReading {
            kind: MetricKind::MemTotal,
            value: 16 * GIB,
            unit: Unit::Bytes,
            timestamp: 7,
        })
    );
    assert_eq!(s.value(MetricKind::MemAvailable), None);
    assert_eq!(s.taken_at(), 7);
}

#[test]
fn with_value_leaves_the_snapshot_it_is_called_on_alone() {
    let before = Snapshot::new(7).with_value(MetricKind::CpuTotal, 4);
    let after = before.with_value(MetricKind::CpuTotal, 8);
    assert_eq!(before.value(MetricKind::CpuTotal), Some(4));
    assert_eq!(after.value(MetricKind::CpuTotal), Some(8));
}

#[test]
fn with_reading_rejects_another_instant() {
    let s = Snapshot::new(7);
    assert_eq!(s.with_reading(MetricReading::new(MetricKind::CpuTotal, 4, 8)), None);
    assert_eq!(s.with_reading(MetricReading::new(MetricKind::CpuTotal, 4, 6)), None);
    let held = s.with_reading(MetricReading::new(MetricKind::CpuTotal, 4, 7)).unwrap();
    assert_eq!(held, s.with_value(MetricKind::CpuTotal, 4));
}

#[test]
fn with_reading_rejects_the_wrong_unit() {
    let s = Snapshot::new(7);
    let odd = MetricReading { kind: MetricKind::CpuTotal, value: 4, unit: Unit::Bytes, timestamp: 7 };
    assert_eq!(s.with_reading(odd), None);
}

#[test]
fn complete_snapshot_is_sound_when_nothing_exceeds_its_total() {
    let s = complete(1, [16, 16, 16 * GIB, 7 * GIB, 100, 100]);
    assert!(s.is_complete());
    assert!(s.is_sound());
    assert!(s.failed().is_empty());
    assert_eq!(s.failed(), KindSet::empty());
}

#[test]
fn available_above_total_is_a_failed_kind() {
    let s = complete(1, [16, 17, 16 * GIB, 16 * GIB + 1, 100, 101]);
    assert!(s.is_complete());
    assert!(!s.is_sound());
    assert_eq!(
        s.failed(),
        KindSet::empty()
            .insert(MetricKind::CpuAvailable)
            .insert(MetricKind::MemAvailable)
            .insert(MetricKind::DiskAvailable)
    );
    assert!(s.rejects(MetricKind::MemAvailable));
    assert!(!s.rejects(MetricKind::MemTotal));
}

#[test]
fn missing_kinds_are_failed_kinds() {
    let s = Snapshot::new(1)
        .with_value(MetricKind::CpuTotal, 2)
        .with_value(MetricKind::CpuAvailable, 1)
        .with_value(MetricKind::MemAvailable, 5);
    assert_eq!(
        s.failed(),
        KindSet::empty()
            .insert(MetricKind::MemTotal)
            .insert(MetricKind::DiskTotal)
            .insert(MetricKind::DiskAvailable)
    );
}

#[test]
fn age_is_the_time_since_the_readings() {
    let s = Snapshot::new(100);
    assert_eq!(s.age(100), 0);
    assert_eq!(s.age(101), 1);
    assert_eq!(s.age(u64::MAX), u64::MAX - 100);
    assert_eq!(s.age(99), 0);
    assert_eq!(s.age(0), 0);
}

#[test]
fn assemble_bundles_every_kind() {
    let readings = HostReadings {
        cpus: cpus_at(16, 10.0),
        memory: MemoryReading { total_bytes: 16 * GIB, available_bytes: 7 * GIB },
        disks: vec![disk("sda1", 500 * GIB, 200 * GIB), disk("sdb1", 1000 * GIB, 900 * GIB)],
    };
    let s = assemble(&readings, 42, &Policy::default());
    assert_eq!(s, complete(42, [16, 16, 16 * GIB, 7 * GIB, 1500 * GIB, 1100 * GIB]));
    assert!(s.is_sound());
}

#[test]
fn assemble_leaves_out_what_cannot_be_summed_up() {
    let readings = HostReadings {
        cpus: cpus_at(2, 99.0),
        memory: MemoryReading { total_bytes: 16 * GIB, available_bytes: 0 },
        disks: Vec::new(),
    };
    let s = assemble(&readings, 42, &Policy::default());
    assert_eq!(
        s,
        Snapshot::new(42).with_value(MetricKind::CpuTotal, 2).with_value(MetricKind::CpuAvailable, 0)
    );
    assert_eq!(
        s.failed(),
        KindSet::empty()
            .insert(MetricKind::MemTotal)
            .insert(MetricKind::MemAvailable)
            .insert(MetricKind::DiskTotal)
            .insert(MetricKind::DiskAvailable)
    );
}

#[test]
fn assemble_leaves_out_a_subsystem_that_contradicts_itself() {
    let readings = HostReadings {
        cpus: cpus_at(2, 1.0),
        memory: MemoryReading { total_bytes: 8, available_bytes: 9 },
        disks: vec![disk("sda1", 10, 5)],
    };
    let s = assemble(&readings, 1, &Policy::default());
    assert_eq!(s.value(MetricKind::MemTotal), None);
    assert_eq!(s.value(MetricKind::MemAvailable), None);
    assert_eq!(s.value(MetricKind::DiskTotal), Some(10));
    assert_eq!(s.value(MetricKind::CpuAvailable), Some(2));
}

#[test]
fn is_low_is_strictly_below_the_percentage() {
    assert!(is_low(4, 100, 5));
    assert!(!is_low(5, 100, 5));
    assert!(!is_low(6, 100, 5));
    assert!(is_low(0, 1, 5));
    assert!(!is_low(0, 0, 5));
    assert!(!is_low(0, 100, 0));
    assert!(is_low(99, 100, 100));
    assert!(!is_low(100, 100, 100));
    assert!(is_low(u64::MAX - 1, u64::MAX, 100));
    assert!(is_low(u64::MAX, u64::MAX, u64::MAX));
    assert!(!is_low(u64::MAX, u64::MAX, 100));
}

#[test]
fn incomplete_snapshot_is_unavailable() {
    let policy = Policy::default();
    assert_eq!(classify(&Snapshot::new(0), &policy), HealthStatus::Unavailable);
    for missing in MetricKind::all() {
        let mut s = Snapshot::new(0);
        for kind in MetricKind::all() {
            if kind != missing {
                s = s.with_value(kind, 1000);
            }
        }
        assert_eq!(classify(&s, &policy), HealthStatus::Unavailable);
    }
}

#[test]
fn roomy_snapshot_is_healthy() {
    let s = complete(1, [16, 16, 16 * GIB, 7 * GIB, 1500 * GIB, 1100 * GIB]);
    assert_eq!(classify(&s, &Policy::default()), HealthStatus::Healthy);
}

#[test]
fn low_memory_is_degraded() {
    let s = complete(1, [16, 16, 1000, 49, 1000, 500]);
    assert_eq!(classify(&s, &Policy::default()), HealthStatus::Degraded);
    let edge = complete(1, [16, 16, 1000, 50, 1000, 500]);
    assert_eq!(classify(&edge, &Policy::default()), HealthStatus::Healthy);
}

#[test]
fn low_disk_space_is_degraded() {
    let s = complete(1, [16, 16, 1000, 500, 1000, 49]);
    assert_eq!(classify(&s, &Policy::default()), HealthStatus::Degraded);
    let edge = complete(1, [16, 16, 1000, 500, 1000, 50]);
    assert_eq!(classify(&edge, &Policy::default()), HealthStatus::Healthy);
}

#[test]
fn no_available_processor_is_degraded() {
    let s = complete(1, [16, 0, 1000, 500, 1000, 500]);
    assert_eq!(classify(&s, &Policy::default()), HealthStatus::Degraded);
    let one = complete(1, [16, 1, 1000, 500, 1000, 500]);
    assert_eq!(classify(&one, &Policy::default()), HealthStatus::Healthy);
}

#[test]
fn the_low_resource_threshold_is_the_policys() {
    let s = complete(1, [16, 16, 1000, 100, 1000, 500]);
    let lax = Policy { cpu_usage_threshold: 95.0f32.to_bits(), low_resource_percent: 10 };
    let strict = Policy { cpu_usage_threshold: 95.0f32.to_bits(), low_resource_percent: 11 };
    assert_eq!(classify(&s, &lax), HealthStatus::Healthy);
    assert_eq!(classify(&s, &strict), HealthStatus::Degraded);
}

#[test]
fn classify_gives_the_same_answer_every_time() {
    let s = complete(1, [16, 16, 1000, 49, 1000, 500]);
    let first = classify(&s, &Policy::default());
    for _ in 0..5 {
        assert_eq!(classify(&s, &Policy::default()), first);
    }
}

#[test]
fn assemble_leaves_out_volumes_of_no_size() {
    let readings = HostReadings {
        cpus: cpus_at(2, 1.0),
        memory: MemoryReading { total_bytes: 8, available_bytes: 4 },
        disks: vec![disk("sda1", 0, 0)],
    };
    let s = assemble(&readings, 1, &Policy::default());
    assert_eq!(s.value(MetricKind::DiskTotal), None);
    assert_eq!(s.value(MetricKind::DiskAvailable), None);
    assert_eq!(s.value(MetricKind::MemAvailable), Some(4));
    assert_eq!(
        s.failed(),
        KindSet::empty().insert(MetricKind::DiskTotal).insert(MetricKind::DiskAvailable)
    );
}
