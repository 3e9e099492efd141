//! The snapshot cache: the last snapshot that a refresh obtained in full.
//!
//! The cache starts empty. A refresh either replaces the cached snapshot as
//! a whole or leaves it exactly as it was; what is cached is always complete,
//! with nothing more available than there is.

use vstd::prelude::*;
use crate::aggregate::Policy;
use crate::collector::{Collector, HostReadings};
use crate::error::RefreshError;
use crate::health::{classify, spec_classify, HealthStatus};
use crate::metric::MetricKind;
use crate::sampler::read_all;
use crate::snapshot::{assemble, lemma_assembled_is_consistent, spec_assemble, Snapshot};

verus! {

/// The cached snapshot is no older at `now` than `max_age`.
pub open spec fn spec_fresh(cached: Option<Snapshot>, now: u64, max_age: u64) -> bool {
    cached matches Some(s) && s.spec_age(now) <= max_age
}

/// What becomes of the cache, and what the caller gets, when a refresh hands
/// in `fresh`: a sound snapshot replaces what was cached; any other leaves it
/// and is reported with the kinds that failed, or as no data at all where
/// nothing was cached.
pub open spec fn spec_install(cached: Option<Snapshot>, fresh: Snapshot) -> (
    Option<Snapshot>,
    Result<Snapshot, RefreshError>,
) {
    if fresh.spec_is_sound() {
        (Some(fresh), Ok(fresh))
    } else if cached is Some {
        (cached, Err(RefreshError::Partial(fresh.spec_failed())))
    } else {
        (None, Err(RefreshError::NoData))
    }
}

/// What becomes of the cache, and what the caller gets, when a snapshot no
/// older than `max_age` is asked for at `now` and a refresh would read
/// `readings`.
pub open spec fn spec_get_or_refresh(
    cached: Option<Snapshot>,
    readings: HostReadings,
    now: u64,
    max_age: u64,
    policy: Policy,
) -> (Option<Snapshot>, Result<Snapshot, RefreshError>) {
    if spec_fresh(cached, now, max_age) {
        (cached, Ok(cached->0))
    } else {
        spec_install(cached, spec_assemble(readings, now, policy))
    }
}

/// A refresh that hands in a sound snapshot caches and returns it. Any other
/// leaves the cache as it was and reports the kinds that failed, of which
/// there is at least one, or no data where nothing was cached.
pub proof fn lemma_install_outcomes(cached: Option<Snapshot>, fresh: Snapshot)
    ensures
        fresh.spec_is_sound() ==> spec_install(cached, fresh) == (
            Some(fresh),
            Ok::<Snapshot, RefreshError>(fresh),
        ),
        !fresh.spec_is_sound() ==> spec_install(cached, fresh).0 == cached,
        !fresh.spec_is_sound() && cached is None ==> spec_install(cached, fresh).1 == Err::<
            Snapshot,
            RefreshError,
        >(RefreshError::NoData),
        !fresh.spec_is_sound() && cached is Some ==> spec_install(cached, fresh).1 == Err::<
            Snapshot,
            RefreshError,
        >(RefreshError::Partial(fresh.spec_failed())),
        !fresh.spec_is_sound() ==> !fresh.spec_failed().spec_is_empty(),
{
    fresh.lemma_sound_has_no_failed();
}

/// Asking twice with no time between yields the same: once a call at `now`
/// has returned a snapshot, a second call at the same `now` with the same
/// `max_age` returns that snapshot again and leaves the cache as it is,
/// whatever the collector would report by then.
pub proof fn lemma_get_or_refresh_is_idempotent(
    cached: Option<Snapshot>,
    first: HostReadings,
    second: HostReadings,
    now: u64,
    max_age: u64,
    policy: Policy,
)
    ensures
        ({
            let (after, served) = spec_get_or_refresh(cached, first, now, max_age, policy);
            served is Ok ==> {
                &&& spec_fresh(after, now, max_age)
                &&& spec_get_or_refresh(after, second, now, max_age, policy) == (after, served)
            }
        }),
{
    lemma_assembled_is_consistent(first, now, policy);
}

/// The last snapshot that a refresh obtained in full, if any did yet.
pub struct SnapshotCache {
    snapshot: Option<Snapshot>,
}

impl View for SnapshotCache {
    type V = Option<Snapshot>;

    /// The cached snapshot, if there is one.
    closed spec fn view(&self) -> Option<Snapshot> {
        self.snapshot
    }
}

impl SnapshotCache {
    /// What is cached is complete, with nothing more available than there is.
    #[verifier::type_invariant]
    spec fn cached_is_sound(self) -> bool {
        self.snapshot matches Some(s) ==> s.spec_is_sound()
    }

    /// The empty cache.
    pub fn new() -> (cache: SnapshotCache)
        ensures
            cache@ is None,
    {
        SnapshotCache { snapshot: None }
    }

    /// The cached snapshot, which is complete and sound if there is one.
    pub fn snapshot(&self) -> (cached: Option<Snapshot>)
        ensures
            cached == self@,
            cached matches Some(s) ==> s.spec_is_sound() && s.spec_is_complete(),
    {
        proof {
            use_type_invariant(self);
            if let Some(s) = self.snapshot {
                assert forall|k: MetricKind| s.spec_value(k) is Some by {
                    assert(!s.spec_rejects(k));
                }
            }
        }
        self.snapshot
    }

    /// Whether a snapshot is cached that is no older at `now` than `max_age`.
    pub fn is_fresh(&self, now: u64, max_age: u64) -> (fresh: bool)
        ensures
            fresh == spec_fresh(self@, now, max_age),
    {
        match self.snapshot {
            Some(s) => s.age(now) <= max_age,
            None => false,
        }
    }

    /// Hands in the outcome of a refresh. A sound snapshot replaces the cached
    /// one and is returned; any other leaves the cache untouched.
    pub fn install(&mut self, fresh: Snapshot) -> (r: Result<Snapshot, RefreshError>)
        ensures
            (final(self)@, r) == spec_install(old(self)@, fresh),
            r is Err ==> final(self)@ == old(self)@,
    {
        if fresh.is_sound() {
            self.snapshot = Some(fresh);
            Ok(fresh)
        } else if self.snapshot.is_some() {
            Err(RefreshError::Partial(fresh.failed()))
        } else {
            Err(RefreshError::NoData)
        }
    }

    /// Serves the cached snapshot where it is no older at `now` than
    /// `max_age`; else installs what `readings` give.
    pub fn get_or_refresh_from(
        &mut self,
        readings: &HostReadings,
        now: u64,
        max_age: u64,
        policy: &Policy,
    ) -> (r: Result<Snapshot, RefreshError>)
        ensures
            (final(self)@, r) == spec_get_or_refresh(old(self)@, *readings, now, max_age, *policy),
    {
        if self.is_fresh(now, max_age) {
            match self.snapshot {
                Some(s) => Ok(s),
                None => Err(RefreshError::NoData),
            }
        } else {
            self.install(assemble(readings, now, policy))
        }
    }

    /// Serves the cached snapshot where it is no older at `now` than
    /// `max_age`, without touching the collector. Else reads every subsystem
    /// of the collector once and installs what the readings give: on success
    /// the new snapshot, of instant `now`, is cached and returned; on failure
    /// the cache stays as it was.
    pub fn get_or_refresh<C: Collector>(
        &mut self,
        collector: &mut C,
        now: u64,
        max_age: u64,
        policy: &Policy,
    ) -> (r: Result<Snapshot, RefreshError>)
        ensures
            spec_fresh(old(self)@, now, max_age) ==> {
                &&& r == Ok::<Snapshot, RefreshError>(old(self)@->0)
                &&& final(self)@ == old(self)@
                &&& *final(collector) == *old(collector)
            },
            exists|readings: HostReadings|
                (final(self)@, r) == #[trigger] spec_get_or_refresh(
                    old(self)@,
                    readings,
                    now,
                    max_age,
                    *policy,
                ),
            r matches Ok(s) ==> {
                &&& final(self)@ == Some(s)
                &&& spec_fresh(final(self)@, now, max_age)
                &&& s.spec_is_sound()
                &&& !spec_fresh(old(self)@, now, max_age) ==> s.spec_taken_at() == now
            },
            r matches Err(e) ==> {
                &&& final(self)@ == old(self)@
                &&& e != RefreshError::Timeout
                &&& e == RefreshError::NoData <==> old(self)@ is None
            },
            r matches Err(RefreshError::Partial(failed)) ==> !failed.spec_is_empty(),
    {
        proof {
            use_type_invariant(&*self);
        }
        if self.is_fresh(now, max_age) {
            let ghost unread: HostReadings = vstd::pervasive::arbitrary();
            let r = match self.snapshot {
                Some(s) => Ok(s),
                None => Err(RefreshError::NoData),
            };
            assert((self@, r) == spec_get_or_refresh(self@, unread, now, max_age, *policy));
            r
        } else {
            let readings = read_all(collector);
            let ghost before = self@;
            proof {
                lemma_assembled_is_consistent(readings, now, *policy);
                lemma_install_outcomes(before, spec_assemble(readings, now, *policy));
            }
            self.get_or_refresh_from(&readings, now, max_age, policy)
        }
    }

    /// The health that the cached snapshot shows, worked out anew at every
    /// call; an empty cache shows nothing.
    pub fn health(&self, policy: &Policy) -> (status: HealthStatus)
        ensures
            status == match self@ {
                Some(s) => spec_classify(s, *policy),
                None => HealthStatus::Unavailable,
            },
    {
        match self.snapshot {
            Some(s) => classify(&s, policy),
            None => HealthStatus::Unavailable,
        }
    }
}

} // verus!
