//! One refresh at a time: the decisions of a cache that several callers
//! share.
//!
//! The coordinator does not wait, sleep or read a clock. It decides: a caller
//! tells it the time and what age it accepts, and is told to take the cached
//! snapshot, to run the refresh, or to wait for the refresh that another
//! caller is running. Whoever runs the refresh hands in the outcome together
//! with the ticket it was given, and an outcome that took longer than the
//! time limit is discarded.

use vstd::prelude::*;
use crate::aggregate::Policy;
use crate::cache::{lemma_install_outcomes, spec_fresh, spec_install, SnapshotCache};
use crate::error::RefreshError;
use crate::health::{spec_classify, HealthStatus};
use crate::snapshot::Snapshot;

verus! {

/// What a caller wants while another caller's refresh is under way.
#[derive(Clone, Copy, Debug, PartialEq, Eq, Structural)]
pub enum WaitPolicy {
    /// Wait for the refresh, whatever is cached.
    Block,
    /// Take the cached snapshot if it is still fresh enough; else wait.
    ServePrior,
}

/// The right to hand in the outcome of the refresh that was started when the
/// ticket was issued.
#[derive(Debug, PartialEq, Eq)]
pub struct RefreshTicket {
    started_at: u64,
}

impl RefreshTicket {
    /// The instant at which the refresh was started.
    pub closed spec fn spec_started_at(&self) -> u64 {
        self.started_at
    }

    /// The ticket of a refresh started at `now`.
    pub closed spec fn spec_issued(now: u64) -> RefreshTicket {
        RefreshTicket { started_at: now }
    }

    /// A ticket says when it was issued, and nothing else.
    pub proof fn lemma_issued(now: u64)
        ensures
            RefreshTicket::spec_issued(now).spec_started_at() == now,
    {
    }

    /// The instant at which the refresh was started.
    pub fn started_at(&self) -> (t: u64)
        ensures
            t == self.spec_started_at(),
    {
        self.started_at
    }
}

/// What a caller is told to do.
#[derive(Debug, PartialEq, Eq)]
pub enum Admission {
    /// Take this snapshot; it is the cached one.
    Serve(Snapshot),
    /// Run the refresh and hand in its outcome with this ticket.
    Refresh(RefreshTicket),
    /// Another caller is refreshing; ask again when it is done.
    Wait,
}

/// The coordinator as its decisions see it.
pub struct CoordinatorState {
    /// The cached snapshot.
    pub cached: Option<Snapshot>,
    /// Whether a refresh is under way.
    pub refreshing: bool,
    /// How long a refresh may take.
    pub timeout: u64,
}

/// The time from `since` to `now`; nothing, where `now` is not after `since`.
pub open spec fn spec_elapsed(since: u64, now: u64) -> u64 {
    if now >= since {
        (now - since) as u64
    } else {
        0
    }
}

/// The decision for a caller that asks at `now` for a snapshot no older than
/// `max_age`, and the state it leaves.
pub open spec fn spec_request(state: CoordinatorState, now: u64, max_age: u64, wait: WaitPolicy) -> (
    CoordinatorState,
    Admission,
) {
    if state.refreshing {
        if wait == WaitPolicy::ServePrior && spec_fresh(state.cached, now, max_age) {
            (state, Admission::Serve(state.cached->0))
        } else {
            (state, Admission::Wait)
        }
    } else if spec_fresh(state.cached, now, max_age) {
        (state, Admission::Serve(state.cached->0))
    } else {
        (
            CoordinatorState { refreshing: true, ..state },
            Admission::Refresh(RefreshTicket::spec_issued(now)),
        )
    }
}

/// What the caller that ran a refresh from `started_at` gets when it hands in
/// `fresh` at `now`, and the state that leaves. No refresh is under way
/// afterwards. An outcome that overran the time limit is discarded.
pub open spec fn spec_finish(state: CoordinatorState, started_at: u64, now: u64, fresh: Snapshot)
    -> (CoordinatorState, Result<Snapshot, RefreshError>) {
    if spec_elapsed(started_at, now) > state.timeout {
        (CoordinatorState { refreshing: false, ..state }, Err(RefreshError::Timeout))
    } else {
        (
            CoordinatorState {
                refreshing: false,
                cached: spec_install(state.cached, fresh).0,
                ..state
            },
            spec_install(state.cached, fresh).1,
        )
    }
}

/// Of callers that find the cache expired at the same time, one runs the
/// refresh and the others wait: the first is given a ticket, and until it
/// hands in the outcome everyone else who finds the cache expired is told to
/// wait. The snapshot that the first caller gets when it hands in the outcome
/// is the one that a waiting caller is served when it asks again, as long as
/// that snapshot is fresh enough for it; and where the first caller gets an
/// error the cached snapshot is as it was.
pub proof fn lemma_one_refresh_serves_all(
    state: CoordinatorState,
    now: u64,
    max_age: u64,
    first: WaitPolicy,
    second: WaitPolicy,
    done: u64,
    fresh: Snapshot,
    later: u64,
)
    requires
        !state.refreshing,
        !spec_fresh(state.cached, now, max_age),
    ensures
        ({
            let (started, told_first) = spec_request(state, now, max_age, first);
            let (waiting, told_second) = spec_request(started, now, max_age, second);
            let (finished, outcome) = spec_finish(waiting, now, done, fresh);
            let (served, told_again) = spec_request(finished, later, max_age, second);
            &&& told_first == Admission::Refresh(RefreshTicket::spec_issued(now))
            &&& started.refreshing
            &&& told_second == Admission::Wait
            &&& waiting == started
            &&& !finished.refreshing
            &&& outcome matches Ok(s) ==> {
                &&& s == fresh
                &&& finished.cached == Some(s)
                &&& s.spec_age(later) <= max_age ==> told_again == Admission::Serve(s) && served
                    == finished
            }
            &&& outcome is Err ==> finished.cached == state.cached
            &&& outcome is Ok <==> fresh.spec_is_sound() && spec_elapsed(now, done)
                <= state.timeout
        }),
{
    lemma_install_outcomes(state.cached, fresh);
}

/// A refresh that fails or overruns leaves the cached snapshot as it was.
pub proof fn lemma_failed_refresh_keeps_snapshot(
    state: CoordinatorState,
    started_at: u64,
    now: u64,
    fresh: Snapshot,
)
    ensures
        spec_finish(state, started_at, now, fresh).1 is Err ==> spec_finish(
            state,
            started_at,
            now,
            fresh,
        ).0.cached == state.cached,
        spec_finish(state, started_at, now, fresh).1 == Err::<Snapshot, RefreshError>(
            RefreshError::Timeout,
        ) <==> spec_elapsed(started_at, now) > state.timeout,
{
    lemma_install_outcomes(state.cached, fresh);
}

/// A snapshot cache that lets one refresh run at a time and limits how long
/// it may take.
pub struct RefreshCoordinator {
    cache: SnapshotCache,
    refreshing: bool,
    timeout: u64,
}

impl View for RefreshCoordinator {
    type V = CoordinatorState;

    /// The coordinator as its decisions see it.
    closed spec fn view(&self) -> CoordinatorState {
        CoordinatorState { cached: self.cache@, refreshing: self.refreshing, timeout: self.timeout }
    }
}

impl RefreshCoordinator {
    /// A coordinator with an empty cache and no refresh under way, whose
    /// refreshes may take `timeout`.
    pub fn new(timeout: u64) -> (coordinator: RefreshCoordinator)
        ensures
            coordinator@ == (CoordinatorState { cached: None, refreshing: false, timeout }),
    {
        RefreshCoordinator { cache: SnapshotCache::new(), refreshing: false, timeout }
    }

    /// The cached snapshot, which is complete and sound if there is one.
    pub fn snapshot(&self) -> (cached: Option<Snapshot>)
        ensures
            cached == self@.cached,
            cached matches Some(s) ==> s.spec_is_sound() && s.spec_is_complete(),
    {
        self.cache.snapshot()
    }

    /// Whether a refresh is under way.
    pub fn is_refreshing(&self) -> (refreshing: bool)
        ensures
            refreshing == self@.refreshing,
    {
        self.refreshing
    }

    /// How long a refresh may take.
    pub fn timeout(&self) -> (timeout: u64)
        ensures
            timeout == self@.timeout,
    {
        self.timeout
    }

    /// Decides for a caller that asks at `now` for a snapshot no older than
    /// `max_age`.
    pub fn request(&mut self, now: u64, max_age: u64, wait: WaitPolicy) -> (told: Admission)
        ensures
            (final(self)@, told) == spec_request(old(self)@, now, max_age, wait),
            told matches Admission::Refresh(ticket) ==> ticket.spec_started_at() == now,
            told matches Admission::Serve(s) ==> s.spec_is_sound() && s.spec_age(now) <= max_age,
    {
        let fresh = self.cache.is_fresh(now, max_age);
        if self.refreshing {
            let serve_prior = match wait {
                WaitPolicy::ServePrior => true,
                WaitPolicy::Block => false,
            };
            if serve_prior && fresh {
                match self.cache.snapshot() {
                    Some(s) => Admission::Serve(s),
                    None => Admission::Wait,
                }
            } else {
                Admission::Wait
            }
        } else if fresh {
            match self.cache.snapshot() {
                Some(s) => Admission::Serve(s),
                None => Admission::Wait,
            }
        } else {
            self.refreshing = true;
            Admission::Refresh(RefreshTicket { started_at: now })
        }
    }

    /// Takes the outcome of the refresh that `ticket` was issued for, handed
    /// in at `now`.
    pub fn finish(&mut self, ticket: RefreshTicket, now: u64, fresh: Snapshot) -> (r: Result<
        Snapshot,
        RefreshError,
    >)
        ensures
            (final(self)@, r) == spec_finish(old(self)@, ticket.spec_started_at(), now, fresh),
            !final(self)@.refreshing,
            r is Err ==> final(self)@.cached == old(self)@.cached,
    {
        proof {
            lemma_install_outcomes(self.cache@, fresh);
        }
        self.refreshing = false;
        let elapsed: u64 = if now >= ticket.started_at {
            now - ticket.started_at
        } else {
            0
        };
        if elapsed > self.timeout {
            Err(RefreshError::Timeout)
        } else {
            self.cache.install(fresh)
        }
    }

    /// The health that the cached snapshot shows, worked out anew at every
    /// call.
    pub fn health(&self, policy: &Policy) -> (status: HealthStatus)
        ensures
            status == match self@.cached {
                Some(s) => spec_classify(s, *policy),
                None => HealthStatus::Unavailable,
            },
    {
        self.cache.health(policy)
    }
}

} // verus!
