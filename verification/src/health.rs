//! Health: what a snapshot says about the host, recomputed at every read.

use vstd::prelude::*;
use crate::aggregate::Policy;
use crate::metric::MetricKind;
use crate::snapshot::Snapshot;

verus! {

/// The state of the host as far as a snapshot shows it.
#[derive(Clone, Copy, Debug, PartialEq, Eq, Structural)]
pub enum HealthStatus {
    /// Every kind is known and nothing is short.
    Healthy,
    /// Memory or disk space is low, or no processor is available.
    Degraded,
    /// Some kind is not known.
    Unavailable,
}

/// Less than `percent` percent of `total` are available.
pub open spec fn spec_is_low(available: u64, total: u64, percent: u64) -> bool {
    available * 100 < total * percent
}

/// Whether less than `percent` percent of `total` are available.
pub fn is_low(available: u64, total: u64, percent: u64) -> (low: bool)
    ensures
        low == spec_is_low(available, total, percent),
{
    assert(available * 100 <= 0xffff_ffff_ffff_ffff * 100) by (nonlinear_arith)
        requires
            available <= 0xffff_ffff_ffff_ffff,
    ;
    assert(total * percent <= 0xffff_ffff_ffff_ffff * 0xffff_ffff_ffff_ffff) by (nonlinear_arith)
        requires
            total <= 0xffff_ffff_ffff_ffff,
            percent <= 0xffff_ffff_ffff_ffff,
    ;
    let have: u128 = (available as u128) * 100;
    let need: u128 = (total as u128) * (percent as u128);
    have < need
}

/// The health that `snapshot` shows under `policy`.
pub open spec fn spec_classify(snapshot: Snapshot, policy: Policy) -> HealthStatus {
    if !snapshot.spec_is_complete() {
        HealthStatus::Unavailable
    } else if spec_is_low(
        snapshot.spec_value(MetricKind::MemAvailable)->0,
        snapshot.spec_value(MetricKind::MemTotal)->0,
        policy.low_resource_percent,
    ) || spec_is_low(
        snapshot.spec_value(MetricKind::DiskAvailable)->0,
        snapshot.spec_value(MetricKind::DiskTotal)->0,
        policy.low_resource_percent,
    ) || snapshot.spec_value(MetricKind::CpuAvailable)->0 == 0 {
        HealthStatus::Degraded
    } else {
        HealthStatus::Healthy
    }
}

/// Classifies a snapshot. The result depends on the snapshot and the policy
/// and on nothing else.
pub fn classify(snapshot: &Snapshot, policy: &Policy) -> (status: HealthStatus)
    ensures
        status == spec_classify(*snapshot, *policy),
{
    if !snapshot.is_complete() {
        return HealthStatus::Unavailable;
    }
    let cpu_available = snapshot.value(MetricKind::CpuAvailable);
    let mem_total = snapshot.value(MetricKind::MemTotal);
    let mem_available = snapshot.value(MetricKind::MemAvailable);
    let disk_total = snapshot.value(MetricKind::DiskTotal);
    let disk_available = snapshot.value(MetricKind::DiskAvailable);
    match (cpu_available, mem_total, mem_available, disk_total, disk_available) {
        (Some(cpus), Some(mem), Some(mem_free), Some(disk), Some(disk_free)) => {
            if is_low(mem_free, mem, policy.low_resource_percent) || is_low(
                disk_free,
                disk,
                policy.low_resource_percent,
            ) || cpus == 0 {
                HealthStatus::Degraded
            } else {
                HealthStatus::Healthy
            }
        },
        _ => HealthStatus::Unavailable,
    }
}

} // verus!
