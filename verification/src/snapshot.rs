//! Snapshots: the readings of one instant, at most one per kind.
//!
//! A snapshot is a value. Nothing changes one in place; adding a reading
//! gives another snapshot. All its readings carry its own instant, so a
//! snapshot cannot mix ages.

use vstd::prelude::*;
use crate::aggregate::Policy;
use crate::collector::HostReadings;
use crate::metric::{KindSet, MetricKind, MetricReading, Subsystem};
use crate::query::{spec_summary, summary_of};

verus! {

/// A bundle of readings across the tracked kinds, all of one instant.
#[derive(Clone, Copy, Debug, PartialEq, Eq, Structural)]
pub struct Snapshot {
    taken_at: u64,
    cpu_total: Option<u64>,
    cpu_available: Option<u64>,
    mem_total: Option<u64>,
    mem_available: Option<u64>,
    disk_total: Option<u64>,
    disk_available: Option<u64>,
}

impl View for Snapshot {
    type V = Map<MetricKind, MetricReading>;

    /// The snapshot as a mapping from the kinds it holds to their readings.
    open spec fn view(&self) -> Map<MetricKind, MetricReading> {
        Map::new(
            |k: MetricKind| self.spec_value(k) is Some,
            |k: MetricKind| MetricReading::spec_new(k, self.spec_value(k)->0, self.spec_taken_at()),
        )
    }
}

impl Snapshot {
    /// The instant of the monotonic clock at which the readings were taken.
    pub closed spec fn spec_taken_at(&self) -> u64 {
        self.taken_at
    }

    /// The value held for `kind`, if one is held.
    pub closed spec fn spec_value(&self, kind: MetricKind) -> Option<u64> {
        match kind {
            MetricKind::CpuTotal => self.cpu_total,
            MetricKind::CpuAvailable => self.cpu_available,
            MetricKind::MemTotal => self.mem_total,
            MetricKind::MemAvailable => self.mem_available,
            MetricKind::DiskTotal => self.disk_total,
            MetricKind::DiskAvailable => self.disk_available,
        }
    }

    /// The snapshot of instant `taken_at` that holds `value(k)` for each `k`.
    pub closed spec fn spec_build(
        taken_at: u64,
        value: spec_fn(MetricKind) -> Option<u64>,
    ) -> Snapshot {
        Snapshot {
            taken_at,
            cpu_total: value(MetricKind::CpuTotal),
            cpu_available: value(MetricKind::CpuAvailable),
            mem_total: value(MetricKind::MemTotal),
            mem_available: value(MetricKind::MemAvailable),
            disk_total: value(MetricKind::DiskTotal),
            disk_available: value(MetricKind::DiskAvailable),
        }
    }

    /// A snapshot is determined by its instant and the values it holds.
    pub proof fn lemma_build(taken_at: u64, value: spec_fn(MetricKind) -> Option<u64>)
        ensures
            Snapshot::spec_build(taken_at, value).spec_taken_at() == taken_at,
            forall|k: MetricKind| #[trigger]
                Snapshot::spec_build(taken_at, value).spec_value(k) == value(k),
    {
    }

    /// Two snapshots of the same instant that hold the same values are the
    /// same snapshot.
    pub proof fn lemma_extensional(a: Snapshot, b: Snapshot)
        requires
            a.spec_taken_at() == b.spec_taken_at(),
            forall|k: MetricKind| a.spec_value(k) == b.spec_value(k),
        ensures
            a == b,
    {
        assert(a.spec_value(MetricKind::CpuTotal) == b.spec_value(MetricKind::CpuTotal));
        assert(a.spec_value(MetricKind::CpuAvailable) == b.spec_value(MetricKind::CpuAvailable));
        assert(a.spec_value(MetricKind::MemTotal) == b.spec_value(MetricKind::MemTotal));
        assert(a.spec_value(MetricKind::MemAvailable) == b.spec_value(MetricKind::MemAvailable));
        assert(a.spec_value(MetricKind::DiskTotal) == b.spec_value(MetricKind::DiskTotal));
        assert(a.spec_value(MetricKind::DiskAvailable) == b.spec_value(MetricKind::DiskAvailable));
    }

    /// The reading held for `kind`, if one is held.
    pub open spec fn spec_get(&self, kind: MetricKind) -> Option<MetricReading> {
        match self.spec_value(kind) {
            Some(v) => Some(MetricReading::spec_new(kind, v, self.spec_taken_at())),
            None => None,
        }
    }

    /// Every kind is held.
    pub open spec fn spec_is_complete(&self) -> bool {
        forall|k: MetricKind| self.spec_value(k) is Some
    }

    /// `kind` is not held, or it is an available amount that exceeds the
    /// total held for its subsystem.
    pub open spec fn spec_rejects(&self, kind: MetricKind) -> bool {
        match self.spec_value(kind) {
            None => true,
            Some(v) => kind.spec_is_available() && (self.spec_value(
                kind.spec_subsystem().spec_total_kind(),
            ) matches Some(total) && v > total),
        }
    }

    /// The kinds for which this snapshot has no acceptable reading.
    pub open spec fn spec_failed(&self) -> KindSet {
        KindSet {
            cpu_total: self.spec_rejects(MetricKind::CpuTotal),
            cpu_available: self.spec_rejects(MetricKind::CpuAvailable),
            mem_total: self.spec_rejects(MetricKind::MemTotal),
            mem_available: self.spec_rejects(MetricKind::MemAvailable),
            disk_total: self.spec_rejects(MetricKind::DiskTotal),
            disk_available: self.spec_rejects(MetricKind::DiskAvailable),
        }
    }

    /// Every kind is held, and of no subsystem is more available than there
    /// is in total.
    pub open spec fn spec_is_sound(&self) -> bool {
        forall|k: MetricKind| !self.spec_rejects(k)
    }

    /// How long before `now` the readings were taken; nothing, where `now` is
    /// not after them.
    pub open spec fn spec_age(&self, now: u64) -> u64 {
        if now >= self.spec_taken_at() {
            (now - self.spec_taken_at()) as u64
        } else {
            0
        }
    }

    /// The snapshot of instant `taken_at` that holds no reading yet.
    pub fn new(taken_at: u64) -> (s: Snapshot)
        ensures
            s.spec_taken_at() == taken_at,
            forall|k: MetricKind| s.spec_value(k) is None,
            s@ == Map::<MetricKind, MetricReading>::empty(),
    {
        let s = Snapshot {
            taken_at,
            cpu_total: None,
            cpu_available: None,
            mem_total: None,
            mem_available: None,
            disk_total: None,
            disk_available: None,
        };
        s
    }

    /// The instant of the monotonic clock at which the readings were taken.
    pub fn taken_at(&self) -> (t: u64)
        ensures
            t == self.spec_taken_at(),
    {
        self.taken_at
    }

    /// The value held for `kind`, if one is held.
    pub fn value(&self, kind: MetricKind) -> (v: Option<u64>)
        ensures
            v == self.spec_value(kind),
            v is Some <==> self@.contains_key(kind),
            v matches Some(x) ==> self@[kind].value == x,
    {
        match kind {
            MetricKind::CpuTotal => self.cpu_total,
            MetricKind::CpuAvailable => self.cpu_available,
            MetricKind::MemTotal => self.mem_total,
            MetricKind::MemAvailable => self.mem_available,
            MetricKind::DiskTotal => self.disk_total,
            MetricKind::DiskAvailable => self.disk_available,
        }
    }

    /// The reading held for `kind`, if one is held.
    pub fn get(&self, kind: MetricKind) -> (r: Option<MetricReading>)
        ensures
            r == self.spec_get(kind),
            match r {
                Some(reading) => {
                    &&& self@.contains_key(kind)
                    &&& self@[kind] == reading
                    &&& reading.wf()
                    &&& reading.kind == kind
                    &&& reading.timestamp == self.spec_taken_at()
                },
                None => !self@.contains_key(kind),
            },
    {
        match self.value(kind) {
            Some(v) => Some(MetricReading::new(kind, v, self.taken_at)),
            None => None,
        }
    }

    /// This snapshot with `value` held for `kind`, in place of what was held
    /// for that kind before.
    pub fn with_value(self, kind: MetricKind, value: u64) -> (s: Snapshot)
        ensures
            s.spec_taken_at() == self.spec_taken_at(),
            forall|k: MetricKind|
                s.spec_value(k) == if k == kind {
                    Some(value)
                } else {
                    self.spec_value(k)
                },
            s@ == self@.insert(kind, MetricReading::spec_new(kind, value, self.spec_taken_at())),
    {
        let mut s = self;
        match kind {
            MetricKind::CpuTotal => { s.cpu_total = Some(value); },
            MetricKind::CpuAvailable => { s.cpu_available = Some(value); },
            MetricKind::MemTotal => { s.mem_total = Some(value); },
            MetricKind::MemAvailable => { s.mem_available = Some(value); },
            MetricKind::DiskTotal => { s.disk_total = Some(value); },
            MetricKind::DiskAvailable => { s.disk_available = Some(value); },
        }
        s
    }

    /// This snapshot with `reading` held for its kind, unless the reading is
    /// of another instant than the snapshot or carries the wrong unit.
    pub fn with_reading(self, reading: MetricReading) -> (r: Option<Snapshot>)
        ensures
            r is Some <==> reading.wf() && reading.timestamp == self.spec_taken_at(),
            r matches Some(s) ==> {
                &&& s.spec_taken_at() == self.spec_taken_at()
                &&& s@ == self@.insert(reading.kind, reading)
                &&& forall|k: MetricKind|
                    s.spec_value(k) == if k == reading.kind {
                        Some(reading.value)
                    } else {
                        self.spec_value(k)
                    }
            },
    {
        if reading.is_well_formed() && reading.timestamp == self.taken_at {
            Some(self.with_value(reading.kind, reading.value))
        } else {
            None
        }
    }

    /// Whether every kind is held.
    pub fn is_complete(&self) -> (b: bool)
        ensures
            b == self.spec_is_complete(),
    {
        let b = self.cpu_total.is_some() && self.cpu_available.is_some() && self.mem_total.is_some()
            && self.mem_available.is_some() && self.disk_total.is_some()
            && self.disk_available.is_some();
        proof {
            if !b {
                let k = if self.cpu_total is None {
                    MetricKind::CpuTotal
                } else if self.cpu_available is None {
                    MetricKind::CpuAvailable
                } else if self.mem_total is None {
                    MetricKind::MemTotal
                } else if self.mem_available is None {
                    MetricKind::MemAvailable
                } else if self.disk_total is None {
                    MetricKind::DiskTotal
                } else {
                    MetricKind::DiskAvailable
                };
                assert(self.spec_value(k) is None);
            }
        }
        b
    }

    /// Whether `kind` is not held, or is an available amount above the total
    /// held for its subsystem.
    pub fn rejects(&self, kind: MetricKind) -> (b: bool)
        ensures
            b == self.spec_rejects(kind),
    {
        match self.value(kind) {
            None => true,
            Some(v) => {
                if kind.is_available() {
                    match self.value(kind.subsystem().total_kind()) {
                        Some(total) => v > total,
                        None => false,
                    }
                } else {
                    false
                }
            },
        }
    }

    /// The kinds for which this snapshot has no acceptable reading.
    pub fn failed(&self) -> (failed: KindSet)
        ensures
            failed == self.spec_failed(),
            forall|k: MetricKind| failed.spec_contains(k) == self.spec_rejects(k),
            failed.spec_is_empty() == self.spec_is_sound(),
    {
        let failed = KindSet {
            cpu_total: self.rejects(MetricKind::CpuTotal),
            cpu_available: self.rejects(MetricKind::CpuAvailable),
            mem_total: self.rejects(MetricKind::MemTotal),
            mem_available: self.rejects(MetricKind::MemAvailable),
            disk_total: self.rejects(MetricKind::DiskTotal),
            disk_available: self.rejects(MetricKind::DiskAvailable),
        };
        proof {
            assert forall|k: MetricKind| failed.spec_contains(k) == self.spec_rejects(k) by {}
            if self.spec_is_sound() {
                assert forall|k: MetricKind| !failed.spec_contains(k) by {}
            }
            if failed.spec_is_empty() {
                assert forall|k: MetricKind| !self.spec_rejects(k) by {}
            }
        }
        failed
    }

    /// Whether every kind is held and nothing is more available than there is.
    pub fn is_sound(&self) -> (b: bool)
        ensures
            b == self.spec_is_sound(),
            b ==> self.spec_is_complete(),
    {
        let sound = self.failed().is_empty();
        proof {
            if sound {
                assert forall|k: MetricKind| self.spec_value(k) is Some by {}
            }
        }
        sound
    }

    /// A snapshot is sound exactly if it has no failed kind.
    pub proof fn lemma_sound_has_no_failed(self)
        ensures
            self.spec_failed().spec_is_empty() == self.spec_is_sound(),
            self.spec_is_sound() ==> self.spec_is_complete(),
    {
        let failed = self.spec_failed();
        assert forall|k: MetricKind| failed.spec_contains(k) == self.spec_rejects(k) by {}
        if failed.spec_is_empty() {
            assert forall|k: MetricKind| !self.spec_rejects(k) by {}
        }
        if self.spec_is_sound() {
            assert forall|k: MetricKind| self.spec_value(k) is Some by {}
        }
    }

    /// How long before `now` the readings were taken.
    pub fn age(&self, now: u64) -> (age: u64)
        ensures
            age == self.spec_age(now),
    {
        if now >= self.taken_at {
            now - self.taken_at
        } else {
            0
        }
    }
}

/// The value that a snapshot assembled from `readings` holds for `kind`: its
/// part of the summary of its subsystem, where that summary can be drawn up.
pub open spec fn spec_assembled_value(kind: MetricKind, readings: HostReadings, policy: Policy)
    -> Option<u64> {
    match spec_summary(kind.spec_subsystem(), readings, policy) {
        Ok(pair) => Some(
            if kind.spec_is_available() {
                pair.1
            } else {
                pair.0
            },
        ),
        Err(_) => None,
    }
}

/// The snapshot of instant `now` that `readings` give under `policy`.
pub open spec fn spec_assemble(readings: HostReadings, now: u64, policy: Policy) -> Snapshot {
    Snapshot::spec_build(now, |k: MetricKind| spec_assembled_value(k, readings, policy))
}

/// In an assembled snapshot the two kinds of a subsystem are held together
/// or not at all, and what is available is at most the total; so it is sound
/// as soon as it is complete.
pub proof fn lemma_assembled_is_consistent(readings: HostReadings, now: u64, policy: Policy)
    ensures
        ({
            let s = spec_assemble(readings, now, policy);
            &&& s.spec_taken_at() == now
            &&& forall|k: MetricKind| s.spec_value(k) == spec_assembled_value(k, readings, policy)
            &&& forall|k: MetricKind| s.spec_rejects(k) == (s.spec_value(k) is None)
            &&& s.spec_is_sound() == s.spec_is_complete()
            &&& forall|sub: Subsystem|
                match (
                    s.spec_value(sub.spec_total_kind()),
                    #[trigger] s.spec_value(sub.spec_available_kind()),
                ) {
                    (Some(total), Some(available)) => available <= total,
                    (None, None) => true,
                    _ => false,
                }
        }),
{
    let s = spec_assemble(readings, now, policy);
    Snapshot::lemma_build(now, |k: MetricKind| spec_assembled_value(k, readings, policy));
    assert forall|k: MetricKind| s.spec_rejects(k) == (s.spec_value(k) is None) by {}
    if s.spec_is_sound() {
        assert forall|k: MetricKind| s.spec_value(k) is Some by {
            assert(!s.spec_rejects(k));
        }
    }
    if s.spec_is_complete() {
        assert forall|k: MetricKind| !s.spec_rejects(k) by {}
    }
    assert forall|sub: Subsystem|
        match (
            s.spec_value(sub.spec_total_kind()),
            #[trigger] s.spec_value(sub.spec_available_kind()),
        ) {
            (Some(total), Some(available)) => available <= total,
            (None, None) => true,
            _ => false,
        } by {}
}

/// Bundles what `readings` give under `policy` into the snapshot of instant
/// `now`. A subsystem whose summary cannot be drawn up leaves both its kinds
/// out.
pub fn assemble(readings: &HostReadings, now: u64, policy: &Policy) -> (s: Snapshot)
    ensures
        s == spec_assemble(*readings, now, *policy),
        s.spec_taken_at() == now,
        forall|k: MetricKind| s.spec_value(k) == spec_assembled_value(k, *readings, *policy),
        s.spec_is_sound() == s.spec_is_complete(),
{
    let mut s = Snapshot::new(now);
    if let Ok(cpu) = summary_of(Subsystem::Cpu, readings, policy) {
        s = s.with_value(MetricKind::CpuTotal, cpu.total());
        s = s.with_value(MetricKind::CpuAvailable, cpu.available());
    }
    if let Ok(memory) = summary_of(Subsystem::Memory, readings, policy) {
        s = s.with_value(MetricKind::MemTotal, memory.total());
        s = s.with_value(MetricKind::MemAvailable, memory.available());
    }
    if let Ok(disk) = summary_of(Subsystem::Disk, readings, policy) {
        s = s.with_value(MetricKind::DiskTotal, disk.total());
        s = s.with_value(MetricKind::DiskAvailable, disk.available());
    }
    proof {
        lemma_assembled_is_consistent(*readings, now, *policy);
        assert forall|k: MetricKind| s.spec_value(k) == spec_assembled_value(
            k,
            *readings,
            *policy,
        ) by {}
        Snapshot::lemma_extensional(s, spec_assemble(*readings, now, *policy));
    }
    s
}

} // verus!
