//! What is measured: the kinds of metric, their units, single readings, and
//! sets of kinds.

use vstd::prelude::*;

verus! {

/// The part of the host that a metric is read from.
#[derive(Clone, Copy, Debug, PartialEq, Eq, Hash, Structural)]
pub enum Subsystem {
    Cpu,
    Memory,
    Disk,
}

impl Subsystem {
    /// The kind that measures how much of this subsystem there is.
    pub open spec fn spec_total_kind(self) -> MetricKind {
        match self {
            Subsystem::Cpu => MetricKind::CpuTotal,
            Subsystem::Memory => MetricKind::MemTotal,
            Subsystem::Disk => MetricKind::DiskTotal,
        }
    }

    /// The kind that measures how much of this subsystem is available.
    pub open spec fn spec_available_kind(self) -> MetricKind {
        match self {
            Subsystem::Cpu => MetricKind::CpuAvailable,
            Subsystem::Memory => MetricKind::MemAvailable,
            Subsystem::Disk => MetricKind::DiskAvailable,
        }
    }

    /// The kind that measures how much of this subsystem there is.
    #[verifier::when_used_as_spec(spec_total_kind)]
    pub fn total_kind(self) -> (kind: MetricKind)
        ensures
            kind == self.spec_total_kind(),
            kind.spec_subsystem() == self,
            !kind.spec_is_available(),
    {
        match self {
            Subsystem::Cpu => MetricKind::CpuTotal,
            Subsystem::Memory => MetricKind::MemTotal,
            Subsystem::Disk => MetricKind::DiskTotal,
        }
    }

    /// The kind that measures how much of this subsystem is available.
    #[verifier::when_used_as_spec(spec_available_kind)]
    pub fn available_kind(self) -> (kind: MetricKind)
        ensures
            kind == self.spec_available_kind(),
            kind.spec_subsystem() == self,
            kind.spec_is_available(),
    {
        match self {
            Subsystem::Cpu => MetricKind::CpuAvailable,
            Subsystem::Memory => MetricKind::MemAvailable,
            Subsystem::Disk => MetricKind::DiskAvailable,
        }
    }
}

/// The unit of a reading's value.
#[derive(Clone, Copy, Debug, PartialEq, Eq, Hash, Structural)]
pub enum Unit {
    Count,
    Bytes,
}

/// The tracked metrics.
#[derive(Clone, Copy, Debug, PartialEq, Eq, Hash, Structural)]
pub enum MetricKind {
    CpuTotal,
    CpuAvailable,
    MemTotal,
    MemAvailable,
    DiskTotal,
    DiskAvailable,
}

impl MetricKind {
    /// The unit in which this kind is measured.
    pub open spec fn spec_unit(self) -> Unit {
        match self {
            MetricKind::CpuTotal | MetricKind::CpuAvailable => Unit::Count,
            _ => Unit::Bytes,
        }
    }

    /// The subsystem this kind is read from.
    pub open spec fn spec_subsystem(self) -> Subsystem {
        match self {
            MetricKind::CpuTotal | MetricKind::CpuAvailable => Subsystem::Cpu,
            MetricKind::MemTotal | MetricKind::MemAvailable => Subsystem::Memory,
            MetricKind::DiskTotal | MetricKind::DiskAvailable => Subsystem::Disk,
        }
    }

    /// Whether this kind measures what is still available, as opposed to what
    /// there is in total.
    pub open spec fn spec_is_available(self) -> bool {
        match self {
            MetricKind::CpuAvailable | MetricKind::MemAvailable | MetricKind::DiskAvailable => true,
            _ => false,
        }
    }

    /// The unit in which this kind is measured.
    #[verifier::when_used_as_spec(spec_unit)]
    pub fn unit(self) -> (u: Unit)
        ensures
            u == self.spec_unit(),
    {
        match self {
            MetricKind::CpuTotal | MetricKind::CpuAvailable => Unit::Count,
            _ => Unit::Bytes,
        }
    }

    /// The subsystem this kind is read from.
    #[verifier::when_used_as_spec(spec_subsystem)]
    pub fn subsystem(self) -> (s: Subsystem)
        ensures
            s == self.spec_subsystem(),
    {
        match self {
            MetricKind::CpuTotal | MetricKind::CpuAvailable => Subsystem::Cpu,
            MetricKind::MemTotal | MetricKind::MemAvailable => Subsystem::Memory,
            MetricKind::DiskTotal | MetricKind::DiskAvailable => Subsystem::Disk,
        }
    }

    /// Whether this kind measures what is still available.
    #[verifier::when_used_as_spec(spec_is_available)]
    pub fn is_available(self) -> (b: bool)
        ensures
            b == self.spec_is_available(),
    {
        match self {
            MetricKind::CpuAvailable | MetricKind::MemAvailable | MetricKind::DiskAvailable => true,
            _ => false,
        }
    }

    /// Every tracked kind, once.
    pub fn all() -> (kinds: Vec<MetricKind>)
        ensures
            kinds@ == seq![
                MetricKind::CpuTotal,
                MetricKind::CpuAvailable,
                MetricKind::MemTotal,
                MetricKind::MemAvailable,
                MetricKind::DiskTotal,
                MetricKind::DiskAvailable,
            ],
            forall|k: MetricKind| kinds@.contains(k),
    {
        let kinds = vec![
            MetricKind::CpuTotal,
            MetricKind::CpuAvailable,
            MetricKind::MemTotal,
            MetricKind::MemAvailable,
            MetricKind::DiskTotal,
            MetricKind::DiskAvailable,
        ];
        kinds
    }
}

/// One value of one metric, as read at one instant of a monotonic clock.
#[derive(Clone, Copy, Debug, PartialEq, Eq, Structural)]
pub struct MetricReading {
    pub kind: MetricKind,
    pub value: u64,
    pub unit: Unit,
    pub timestamp: u64,
}

impl MetricReading {
    /// A reading carries the unit of its kind.
    pub open spec fn wf(self) -> bool {
        self.unit == self.kind.spec_unit()
    }

    /// The reading of `kind` with `value`, taken at `timestamp`.
    pub open spec fn spec_new(kind: MetricKind, value: u64, timestamp: u64) -> MetricReading {
        MetricReading { kind, value, unit: kind.spec_unit(), timestamp }
    }

    /// The reading of `kind` with `value`, taken at `timestamp`.
    #[verifier::when_used_as_spec(spec_new)]
    pub fn new(kind: MetricKind, value: u64, timestamp: u64) -> (r: MetricReading)
        ensures
            r == MetricReading::spec_new(kind, value, timestamp),
            r.wf(),
    {
        MetricReading { kind, value, unit: kind.unit(), timestamp }
    }

    /// Whether the unit is that of the kind.
    pub fn is_well_formed(&self) -> (b: bool)
        ensures
            b == self.wf(),
    {
        self.unit == self.kind.unit()
    }
}

/// A set of metric kinds.
#[derive(Clone, Copy, Debug, PartialEq, Eq, Structural)]
pub struct KindSet {
    pub cpu_total: bool,
    pub cpu_available: bool,
    pub mem_total: bool,
    pub mem_available: bool,
    pub disk_total: bool,
    pub disk_available: bool,
}

impl View for KindSet {
    type V = Set<MetricKind>;

    /// The kinds in the set.
    open spec fn view(&self) -> Set<MetricKind> {
        Set::new(|k: MetricKind| self.spec_contains(k))
    }
}

impl KindSet {
    /// Whether `kind` is in the set.
    pub open spec fn spec_contains(self, kind: MetricKind) -> bool {
        match kind {
            MetricKind::CpuTotal => self.cpu_total,
            MetricKind::CpuAvailable => self.cpu_available,
            MetricKind::MemTotal => self.mem_total,
            MetricKind::MemAvailable => self.mem_available,
            MetricKind::DiskTotal => self.disk_total,
            MetricKind::DiskAvailable => self.disk_available,
        }
    }

    /// No kind is in the set.
    pub open spec fn spec_is_empty(self) -> bool {
        !(self.cpu_total || self.cpu_available || self.mem_total || self.mem_available
            || self.disk_total || self.disk_available)
    }

    /// The set without any kind.
    pub open spec fn spec_empty() -> KindSet {
        KindSet {
            cpu_total: false,
            cpu_available: false,
            mem_total: false,
            mem_available: false,
            disk_total: false,
            disk_available: false,
        }
    }

    /// The set of every kind.
    pub open spec fn spec_full() -> KindSet {
        KindSet {
            cpu_total: true,
            cpu_available: true,
            mem_total: true,
            mem_available: true,
            disk_total: true,
            disk_available: true,
        }
    }

    /// This set with `kind` added.
    pub open spec fn spec_insert(self, kind: MetricKind) -> KindSet {
        match kind {
            MetricKind::CpuTotal => KindSet { cpu_total: true, ..self },
            MetricKind::CpuAvailable => KindSet { cpu_available: true, ..self },
            MetricKind::MemTotal => KindSet { mem_total: true, ..self },
            MetricKind::MemAvailable => KindSet { mem_available: true, ..self },
            MetricKind::DiskTotal => KindSet { disk_total: true, ..self },
            MetricKind::DiskAvailable => KindSet { disk_available: true, ..self },
        }
    }

    /// The set without any kind.
    #[verifier::when_used_as_spec(spec_empty)]
    pub fn empty() -> (s: KindSet)
        ensures
            s == KindSet::spec_empty(),
            s@ == Set::<MetricKind>::empty(),
            forall|k: MetricKind| !s.spec_contains(k),
    {
        KindSet {
            cpu_total: false,
            cpu_available: false,
            mem_total: false,
            mem_available: false,
            disk_total: false,
            disk_available: false,
        }
    }

    /// The set of every kind.
    #[verifier::when_used_as_spec(spec_full)]
    pub fn full() -> (s: KindSet)
        ensures
            s == KindSet::spec_full(),
            s@ == Set::<MetricKind>::full(),
            forall|k: MetricKind| s.spec_contains(k),
    {
        KindSet {
            cpu_total: true,
            cpu_available: true,
            mem_total: true,
            mem_available: true,
            disk_total: true,
            disk_available: true,
        }
    }

    /// Whether `kind` is in the set.
    pub fn contains(&self, kind: MetricKind) -> (b: bool)
        ensures
            b == self@.contains(kind),
            b == self.spec_contains(kind),
    {
        match kind {
            MetricKind::CpuTotal => self.cpu_total,
            MetricKind::CpuAvailable => self.cpu_available,
            MetricKind::MemTotal => self.mem_total,
            MetricKind::MemAvailable => self.mem_available,
            MetricKind::DiskTotal => self.disk_total,
            MetricKind::DiskAvailable => self.disk_available,
        }
    }

    /// This set with `kind` added.
    #[verifier::when_used_as_spec(spec_insert)]
    pub fn insert(self, kind: MetricKind) -> (s: KindSet)
        ensures
            s == self.spec_insert(kind),
            s@ == self@.insert(kind),
            forall|k: MetricKind| s.spec_contains(k) == (k == kind || self.spec_contains(k)),
    {
        let mut s = self;
        match kind {
            MetricKind::CpuTotal => { s.cpu_total = true; },
            MetricKind::CpuAvailable => { s.cpu_available = true; },
            MetricKind::MemTotal => { s.mem_total = true; },
            MetricKind::MemAvailable => { s.mem_available = true; },
            MetricKind::DiskTotal => { s.disk_total = true; },
            MetricKind::DiskAvailable => { s.disk_available = true; },
        }
        s
    }

    /// Whether no kind is in the set.
    pub fn is_empty(&self) -> (b: bool)
        ensures
            b == self.spec_is_empty(),
            b == (self@ == Set::<MetricKind>::empty()),
            b == (forall|k: MetricKind| !self.spec_contains(k)),
    {
        let b = !(self.cpu_total || self.cpu_available || self.mem_total || self.mem_available
            || self.disk_total || self.disk_available);
        proof {
            if b {
                assert(self@ =~= Set::<MetricKind>::empty());
            } else {
                let k = if self.cpu_total {
                    MetricKind::CpuTotal
                } else if self.cpu_available {
                    MetricKind::CpuAvailable
                } else if self.mem_total {
                    MetricKind::MemTotal
                } else if self.mem_available {
                    MetricKind::MemAvailable
                } else if self.disk_total {
                    MetricKind::DiskTotal
                } else {
                    MetricKind::DiskAvailable
                };
                assert(self@.contains(k));
            }
        }
        b
    }
}

} // verus!
