//! The decision procedure for one pair of files.
//!
//! A `Reconciler` never touches a file. It says what it needs next (a
//! `Request`), the caller does that and reports back (an `Event`), and after at
//! most four such rounds the reconciler holds the outcome.

use vstd::prelude::*;
use crate::digest::DigestValue;
use crate::error::ReconcileError;
use crate::timestamp::Timestamp;

verus! {

/// One of the two sides of a pair.
#[derive(Debug, Clone, Copy, PartialEq, Eq, Structural)]
pub enum Side {
    A,
    B,
}

impl Side {
    pub open spec fn opposite(self) -> Side {
        match self {
            Side::A => Side::B,
            Side::B => Side::A,
        }
    }

    /// The other side of the pair.
    pub fn other(self) -> (side: Side)
        ensures
            side == self.opposite(),
    {
        match self {
            Side::A => Side::B,
            Side::B => Side::A,
        }
    }
}

/// How one reconciliation ended.
#[derive(Debug, Clone, Copy, PartialEq, Eq, Structural)]
pub enum SyncDecision {
    /// The modification times were equal: nothing was read or written.
    Unchanged,
    /// The times differed but the content did not: only the older side's time
    /// was brought up to the newer one.
    NoopSameContent,
    /// The content differed: the older side now holds the newer side's content
    /// and time.
    Propagated { from: Side, to: Side },
}

/// What the caller has to do for the reconciler to go on.
#[derive(Debug, Clone, Copy, PartialEq, Eq)]
pub enum Request {
    /// Read the modification time of both sides.
    ReadTimestamps,
    /// Fingerprint the content of both sides.
    ComputeDigests,
    /// Overwrite the whole content of `to` with that of `from`.
    CopyContent { from: Side, to: Side },
    /// Set the modification time of `side` to `modified`, and its access time
    /// to the current time.
    SetModified { side: Side, modified: Timestamp },
    /// Nothing more: the reconciliation ended as given.
    Finished(Result<SyncDecision, ReconcileError>),
}

/// What the caller reports back. `None` and `false` stand for a failure.
#[derive(Debug, Clone, PartialEq, Eq)]
pub enum Event {
    Timestamps { side_a: Option<Timestamp>, side_b: Option<Timestamp> },
    Digests { digest_a: Option<DigestValue>, digest_b: Option<DigestValue> },
    Copied { ok: bool },
    ModifiedSet { ok: bool },
}

impl Event {
    /// Whether this event is the report that `request` asks for.
    pub open spec fn answers(self, request: Request) -> bool {
        match (request, self) {
            (Request::ReadTimestamps, Event::Timestamps { .. }) => true,
            (Request::ComputeDigests, Event::Digests { .. }) => true,
            (Request::CopyContent { .. }, Event::Copied { .. }) => true,
            (Request::SetModified { .. }, Event::ModifiedSet { .. }) => true,
            _ => false,
        }
    }
}

/// Where one reconciliation stands. `newer` is the side with the later
/// modification time and `modified` is that time.
#[derive(Debug, Clone, Copy, PartialEq, Eq)]
pub enum Reconciler {
    AwaitingTimestamps,
    AwaitingDigests { newer: Side, modified: Timestamp },
    AwaitingCopy { newer: Side, modified: Timestamp },
    AwaitingModified { newer: Side, modified: Timestamp, copied: bool },
    Done(SyncDecision),
    Failed(ReconcileError),
}

/// The state that two modification times lead to: equal times end the
/// reconciliation, different ones name the newer side.
pub open spec fn timestamps_verdict(a: Option<Timestamp>, b: Option<Timestamp>) -> Reconciler {
    match (a, b) {
        (Some(ta), Some(tb)) => if ta == tb {
            Reconciler::Done(SyncDecision::Unchanged)
        } else if tb.before(ta) {
            Reconciler::AwaitingDigests { newer: Side::A, modified: ta }
        } else {
            Reconciler::AwaitingDigests { newer: Side::B, modified: tb }
        },
        _ => Reconciler::Failed(ReconcileError::MetadataUnavailable),
    }
}

/// The state that two fingerprints lead to: equal ones leave only the time to
/// set, different ones ask for a copy first.
pub open spec fn digests_verdict(
    newer: Side,
    modified: Timestamp,
    a: Option<DigestValue>,
    b: Option<DigestValue>,
) -> Reconciler {
    match (a, b) {
        (Some(da), Some(db)) => if da@ == db@ {
            Reconciler::AwaitingModified { newer, modified, copied: false }
        } else {
            Reconciler::AwaitingCopy { newer, modified }
        },
        _ => Reconciler::Failed(ReconcileError::DigestUnavailable),
    }
}

impl Reconciler {
    /// What the reconciler asks of its caller in this state.
    pub open spec fn wants(self) -> Request {
        match self {
            Reconciler::AwaitingTimestamps => Request::ReadTimestamps,
            Reconciler::AwaitingDigests { .. } => Request::ComputeDigests,
            Reconciler::AwaitingCopy { newer, .. } => Request::CopyContent {
                from: newer,
                to: newer.opposite(),
            },
            Reconciler::AwaitingModified { newer, modified, .. } => Request::SetModified {
                side: newer.opposite(),
                modified,
            },
            Reconciler::Done(decision) => Request::Finished(Ok(decision)),
            Reconciler::Failed(error) => Request::Finished(Err(error)),
        }
    }

    /// The state after `event`. An event that does not answer the pending
    /// request changes nothing.
    pub open spec fn next(self, event: Event) -> Reconciler {
        match (self, event) {
            (Reconciler::AwaitingTimestamps, Event::Timestamps { side_a, side_b }) => timestamps_verdict(
                side_a,
                side_b,
            ),
            (Reconciler::AwaitingDigests { newer, modified }, Event::Digests { digest_a, digest_b }) => {
                digests_verdict(newer, modified, digest_a, digest_b)
            },
            (Reconciler::AwaitingCopy { newer, modified }, Event::Copied { ok }) => if ok {
                Reconciler::AwaitingModified { newer, modified, copied: true }
            } else {
                Reconciler::Failed(ReconcileError::CopyFailed)
            },
            (Reconciler::AwaitingModified { newer, copied, .. }, Event::ModifiedSet { ok }) => if !ok {
                Reconciler::Failed(ReconcileError::TimestampUpdateFailed)
            } else if copied {
                Reconciler::Done(SyncDecision::Propagated { from: newer, to: newer.opposite() })
            } else {
                Reconciler::Done(SyncDecision::NoopSameContent)
            },
            _ => self,
        }
    }

    /// The most events that can still be asked for.
    pub open spec fn steps_left(self) -> nat {
        match self {
            Reconciler::AwaitingTimestamps => 4,
            Reconciler::AwaitingDigests { .. } => 3,
            Reconciler::AwaitingCopy { .. } => 2,
            Reconciler::AwaitingModified { .. } => 1,
            Reconciler::Done(_) => 0,
            Reconciler::Failed(_) => 0,
        }
    }

    /// A reconciliation that has looked at nothing yet.
    pub fn start() -> (state: Reconciler)
        ensures
            state == Reconciler::AwaitingTimestamps,
    {
        Reconciler::AwaitingTimestamps
    }

    /// What the caller has to do now.
    pub fn pending(&self) -> (request: Request)
        ensures
            request == self.wants(),
    {
        match *self {
            Reconciler::AwaitingTimestamps => Request::ReadTimestamps,
            Reconciler::AwaitingDigests { .. } => Request::ComputeDigests,
            Reconciler::AwaitingCopy { newer, .. } => Request::CopyContent {
                from: newer,
                to: newer.other(),
            },
            Reconciler::AwaitingModified { newer, modified, .. } => Request::SetModified {
                side: newer.other(),
                modified,
            },
            Reconciler::Done(decision) => Request::Finished(Ok(decision)),
            Reconciler::Failed(error) => Request::Finished(Err(error)),
        }
    }

    /// Takes the caller's report and moves on.
    pub fn on_event(self, event: Event) -> (state: Reconciler)
        ensures
            state == self.next(event),
    {
        match (self, event) {
            (Reconciler::AwaitingTimestamps, Event::Timestamps { side_a, side_b }) => match (side_a, side_b) {
                (Some(ta), Some(tb)) => if ta.same_instant(&tb) {
                    Reconciler::Done(SyncDecision::Unchanged)
                } else if tb.is_before(&ta) {
                    Reconciler::AwaitingDigests { newer: Side::A, modified: ta }
                } else {
                    Reconciler::AwaitingDigests { newer: Side::B, modified: tb }
                },
                _ => Reconciler::Failed(ReconcileError::MetadataUnavailable),
            },
            (Reconciler::AwaitingDigests { newer, modified }, Event::Digests { digest_a, digest_b }) => match (
                digest_a,
                digest_b,
            ) {
                (Some(da), Some(db)) => if da.same_as(&db) {
                    Reconciler::AwaitingModified { newer, modified, copied: false }
                } else {
                    Reconciler::AwaitingCopy { newer, modified }
                },
                _ => Reconciler::Failed(ReconcileError::DigestUnavailable),
            },
            (Reconciler::AwaitingCopy { newer, modified }, Event::Copied { ok }) => if ok {
                Reconciler::AwaitingModified { newer, modified, copied: true }
            } else {
                Reconciler::Failed(ReconcileError::CopyFailed)
            },
            (Reconciler::AwaitingModified { newer, copied, .. }, Event::ModifiedSet { ok }) => if !ok {
                Reconciler::Failed(ReconcileError::TimestampUpdateFailed)
            } else if copied {
                Reconciler::Done(SyncDecision::Propagated { from: newer, to: newer.other() })
            } else {
                Reconciler::Done(SyncDecision::NoopSameContent)
            },
            (state, _) => state,
        }
    }
}

/// Every report that answers the pending request brings the end nearer, so a
/// reconciliation ends after four reports at most.
pub proof fn answers_bring_the_end_nearer(state: Reconciler, event: Event)
    requires
        event.answers(state.wants()),
    ensures
        state.next(event).steps_left() < state.steps_left(),
{
}

/// A report that does not answer the pending request changes nothing. Once
/// the reconciliation has ended, that is every report.
pub proof fn other_reports_change_nothing(state: Reconciler, event: Event)
    requires
        !event.answers(state.wants()),
    ensures
        state.next(event) == state,
{
}

/// Equal modification times end the reconciliation at once: no fingerprint
/// and no copy is asked for.
pub proof fn equal_times_ask_for_nothing(time: Timestamp)
    ensures
        Reconciler::AwaitingTimestamps.next(
            Event::Timestamps { side_a: Some(time), side_b: Some(time) },
        ).wants() == Request::Finished(Ok(SyncDecision::Unchanged)),
{
}

} // verus!
