//! What can go wrong, as closed enumerations that a caller can branch on.

use vstd::prelude::*;
use crate::metric::KindSet;

verus! {

/// Why a sample could not be taken.
#[derive(Clone, Copy, Debug, PartialEq, Eq, Structural)]
pub enum SampleError {
    /// The collector enumerated no entity.
    Empty,
    /// A capacity read as exactly zero, which a live host never reports: a
    /// memory figure, or the size of all volumes together.
    ZeroValue,
}

/// Why a query could not be answered.
#[derive(Clone, Copy, Debug, PartialEq, Eq, Structural)]
pub enum ErrorKind {
    /// The collector returned an empty enumeration.
    CollectorUnavailable,
    /// A memory figure or the disk capacity read as zero, where the host
    /// cannot have zero of it.
    InvalidZeroReading,
    /// More was reported available than there is in total.
    InconsistentReading,
    /// A refresh took longer than it was allowed to.
    Timeout,
    /// A sum of readings does not fit in 64 bits.
    NumericOverflow,
    /// A refresh obtained some kinds and failed on these.
    PartialRefresh(KindSet),
}

/// Why a refresh of the cache did not yield a snapshot.
#[derive(Clone, Copy, Debug, PartialEq, Eq, Structural)]
pub enum RefreshError {
    /// These kinds could not be obtained; the previous snapshot stands.
    Partial(KindSet),
    /// Something could not be obtained and there is no previous snapshot.
    NoData,
    /// The refresh overran its time limit; the previous snapshot stands.
    Timeout,
}

impl SampleError {
    /// The query error that this sampling error surfaces as.
    pub open spec fn spec_kind(self) -> ErrorKind {
        match self {
            SampleError::Empty => ErrorKind::CollectorUnavailable,
            SampleError::ZeroValue => ErrorKind::InvalidZeroReading,
        }
    }

    /// The query error that this sampling error surfaces as.
    #[verifier::when_used_as_spec(spec_kind)]
    pub fn kind(self) -> (e: ErrorKind)
        ensures
            e == self.spec_kind(),
    {
        match self {
            SampleError::Empty => ErrorKind::CollectorUnavailable,
            SampleError::ZeroValue => ErrorKind::InvalidZeroReading,
        }
    }
}

impl RefreshError {
    /// The query error that this refresh error surfaces as. A first refresh
    /// that obtained nothing usable means the collector gave no data.
    pub open spec fn spec_kind(self) -> ErrorKind {
        match self {
            RefreshError::Partial(failed) => ErrorKind::PartialRefresh(failed),
            RefreshError::NoData => ErrorKind::CollectorUnavailable,
            RefreshError::Timeout => ErrorKind::Timeout,
        }
    }

    /// The query error that this refresh error surfaces as.
    #[verifier::when_used_as_spec(spec_kind)]
    pub fn kind(self) -> (e: ErrorKind)
        ensures
            e == self.spec_kind(),
    {
        match self {
            RefreshError::Partial(failed) => ErrorKind::PartialRefresh(failed),
            RefreshError::NoData => ErrorKind::CollectorUnavailable,
            RefreshError::Timeout => ErrorKind::Timeout,
        }
    }
}

} // verus!
