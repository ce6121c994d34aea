//! Replicas held in memory, and what reconciling a pair of them does.
//!
//! `PairState` is the model of a pair: the content and modification time of
//! each side. `verdict` and `settled` say how a reconciliation ends and what it
//! leaves behind; `reconcile` runs a `Reconciler` on two replicas and is proved
//! to do exactly that.

use vstd::prelude::*;
use vstd::slice::slice_to_vec;
use crate::digest::{digest, fingerprint, DIGEST_MAX_BYTES};
use crate::error::ReconcileError;
use crate::reconciler::{Event, Reconciler, Request, Side, SyncDecision};
use crate::timestamp::Timestamp;

verus! {

/// What one side of a pair holds: its bytes and its modification time.
#[verifier::ext_equal]
pub struct FileState {
    pub content: Seq<u8>,
    pub modified: Timestamp,
}

/// What both sides of a pair hold.
#[verifier::ext_equal]
pub struct PairState {
    pub a: FileState,
    pub b: FileState,
}

impl PairState {
    pub open spec fn side(self, side: Side) -> FileState {
        match side {
            Side::A => self.a,
            Side::B => self.b,
        }
    }

    /// The pair with `file` in the place of `side`.
    pub open spec fn with_side(self, side: Side, file: FileState) -> PairState {
        match side {
            Side::A => PairState { a: file, b: self.b },
            Side::B => PairState { a: self.a, b: file },
        }
    }

    /// The side with the later modification time, where the times differ.
    pub open spec fn newer(self) -> Side {
        if self.b.modified.before(self.a.modified) {
            Side::A
        } else {
            Side::B
        }
    }

    /// Whether both sides can be fingerprinted through a buffer of
    /// `buffer_size` bytes.
    pub open spec fn digestible(self, buffer_size: usize) -> bool {
        &&& buffer_size > 0
        &&& self.a.content.len() <= DIGEST_MAX_BYTES
        &&& self.b.content.len() <= DIGEST_MAX_BYTES
    }
}

/// How reconciling `pair` ends. Equal times end it at once. Otherwise the
/// fingerprints decide between setting the time only and propagating the newer
/// side.
pub open spec fn verdict(pair: PairState, buffer_size: usize) -> Result<
    SyncDecision,
    ReconcileError,
> {
    if pair.a.modified == pair.b.modified {
        Ok(SyncDecision::Unchanged)
    } else {
        match (
            fingerprint(pair.a.content, buffer_size),
            fingerprint(pair.b.content, buffer_size),
        ) {
            (Ok(digest_a), Ok(digest_b)) => if digest_a == digest_b {
                Ok(SyncDecision::NoopSameContent)
            } else {
                Ok(SyncDecision::Propagated { from: pair.newer(), to: pair.newer().opposite() })
            },
            _ => Err(ReconcileError::DigestUnavailable),
        }
    }
}

/// What reconciling `pair` leaves behind. The newer side is never touched. The
/// older side takes the newer one's time when the fingerprints agree, and its
/// content and time when they do not.
pub open spec fn settled(pair: PairState, buffer_size: usize) -> PairState {
    let newer = pair.side(pair.newer());
    let older = pair.side(pair.newer().opposite());
    match verdict(pair, buffer_size) {
        Ok(SyncDecision::NoopSameContent) => pair.with_side(
            pair.newer().opposite(),
            FileState { content: older.content, modified: newer.modified },
        ),
        Ok(SyncDecision::Propagated { .. }) => pair.with_side(pair.newer().opposite(), newer),
        _ => pair,
    }
}

/// A pair whose modification times are equal is left alone, whatever the
/// sides hold.
pub proof fn equal_times_change_nothing(pair: PairState, buffer_size: usize)
    requires
        pair.a.modified == pair.b.modified,
    ensures
        verdict(pair, buffer_size) == Ok::<SyncDecision, ReconcileError>(SyncDecision::Unchanged),
        settled(pair, buffer_size) == pair,
{
}

/// Where the times differ and the content does not, no byte changes, the
/// times are equal afterwards, and reconciling once more finds nothing to do.
pub proof fn same_content_is_retimed_once(pair: PairState, buffer_size: usize)
    requires
        pair.a.modified != pair.b.modified,
        pair.a.content == pair.b.content,
        pair.digestible(buffer_size),
    ensures
        verdict(pair, buffer_size) == Ok::<SyncDecision, ReconcileError>(
            SyncDecision::NoopSameContent,
        ),
        settled(pair, buffer_size).a.content == pair.a.content,
        settled(pair, buffer_size).b.content == pair.b.content,
        settled(pair, buffer_size).a.modified == settled(pair, buffer_size).b.modified,
        verdict(settled(pair, buffer_size), buffer_size) == Ok::<SyncDecision, ReconcileError>(
            SyncDecision::Unchanged,
        ),
{
}

/// Where the times and the content differ and the content was propagated, both
/// sides hold the same bytes and the same time afterwards, and reconciling
/// once more finds nothing to do.
pub proof fn propagation_converges(pair: PairState, buffer_size: usize)
    requires
        pair.a.modified != pair.b.modified,
        pair.a.content != pair.b.content,
        (verdict(pair, buffer_size) matches Ok(SyncDecision::Propagated { .. })),
    ensures
        settled(pair, buffer_size).a.content == settled(pair, buffer_size).b.content,
        settled(pair, buffer_size).a.modified == settled(pair, buffer_size).b.modified,
        settled(pair, buffer_size).side(pair.newer()) == pair.side(pair.newer()),
        verdict(settled(pair, buffer_size), buffer_size) == Ok::<SyncDecision, ReconcileError>(
            SyncDecision::Unchanged,
        ),
{
}

/// After a reconciliation that succeeded, whichever way, the times are equal
/// and reconciling once more finds nothing to do.
pub proof fn a_second_reconciliation_is_unchanged(pair: PairState, buffer_size: usize)
    requires
        verdict(pair, buffer_size) is Ok,
    ensures
        settled(pair, buffer_size).a.modified == settled(pair, buffer_size).b.modified,
        verdict(settled(pair, buffer_size), buffer_size) == Ok::<SyncDecision, ReconcileError>(
            SyncDecision::Unchanged,
        ),
        settled(settled(pair, buffer_size), buffer_size) == settled(pair, buffer_size),
{
}

/// The side with the later time is never written to: what it holds is never
/// lost.
pub proof fn newer_side_is_kept(pair: PairState, buffer_size: usize)
    ensures
        settled(pair, buffer_size).side(pair.newer()) == pair.side(pair.newer()),
{
}

/// Content is propagated from the side with the later time to the other one,
/// and in no other direction.
pub proof fn propagation_goes_from_newer_to_older(pair: PairState, buffer_size: usize)
    requires
        (verdict(pair, buffer_size) matches Ok(SyncDecision::Propagated { .. })),
    ensures
        (verdict(pair, buffer_size) matches Ok(SyncDecision::Propagated { from, to }) && (to
            == from.opposite() && pair.side(to).modified.before(pair.side(from).modified))),
{
}

/// A file held in memory.
#[derive(Debug, Clone, PartialEq, Eq)]
pub struct Replica {
    pub content: Vec<u8>,
    pub modified: Timestamp,
}

impl View for Replica {
    type V = FileState;

    open spec fn view(&self) -> FileState {
        FileState { content: self.content@, modified: self.modified }
    }
}

/// The pair that two replicas make up.
pub open spec fn pair_of(a: Replica, b: Replica) -> PairState {
    PairState { a: a@, b: b@ }
}

// The times differ, and `newer` and `modified` are what they say.
spec fn diverged(start: PairState, newer: Side, modified: Timestamp) -> bool {
    &&& start.a.modified != start.b.modified
    &&& newer == start.newer()
    &&& modified == start.side(newer).modified
}

// What holds of a reconciler that was started on `start` and has been told the
// truth since, when the pair has become `now`.
spec fn on_track(state: Reconciler, start: PairState, now: PairState, buffer_size: usize) -> bool {
    match state {
        Reconciler::AwaitingTimestamps => now == start,
        Reconciler::AwaitingDigests { newer, modified } => {
            &&& now == start
            &&& diverged(start, newer, modified)
        },
        Reconciler::AwaitingCopy { newer, modified } => {
            &&& now == start
            &&& diverged(start, newer, modified)
            &&& verdict(start, buffer_size) matches Ok(SyncDecision::Propagated { .. })
        },
        Reconciler::AwaitingModified { newer, modified, copied } => {
            &&& diverged(start, newer, modified)
            &&& if copied {
                &&& verdict(start, buffer_size) matches Ok(SyncDecision::Propagated { .. })
                &&& now == start.with_side(
                    newer.opposite(),
                    FileState {
                        content: start.side(newer).content,
                        modified: start.side(newer.opposite()).modified,
                    },
                )
            } else {
                &&& verdict(start, buffer_size) == Ok::<SyncDecision, ReconcileError>(
                    SyncDecision::NoopSameContent,
                )
                &&& now == start
            }
        },
        Reconciler::Done(decision) => {
            &&& verdict(start, buffer_size) == Ok::<SyncDecision, ReconcileError>(decision)
            &&& now == settled(start, buffer_size)
        },
        Reconciler::Failed(error) => {
            &&& verdict(start, buffer_size) == Err::<SyncDecision, ReconcileError>(error)
            &&& now == start
        },
    }
}

/// Reconciles two replicas: runs a `Reconciler` to its end and does in memory
/// what it asks for. The fingerprints are taken through a read buffer of
/// `buffer_size` bytes.
pub fn reconcile(a: &mut Replica, b: &mut Replica, buffer_size: usize) -> (result: Result<
    SyncDecision,
    ReconcileError,
>)
    ensures
        result == verdict(pair_of(*old(a), *old(b)), buffer_size),
        pair_of(*final(a), *final(b)) == settled(pair_of(*old(a), *old(b)), buffer_size),
{
    let ghost start = pair_of(*a, *b);
    let mut state = Reconciler::start();
    loop
        invariant
            start == pair_of(*old(a), *old(b)),
            on_track(state, start, pair_of(*a, *b), buffer_size),
        decreases state.steps_left(),
    {
        let event = match state.pending() {
            Request::Finished(result) => {
                return result;
            },
            Request::ReadTimestamps => Event::Timestamps {
                side_a: Some(a.modified),
                side_b: Some(b.modified),
            },
            Request::ComputeDigests => Event::Digests {
                digest_a: digest(a.content.as_slice(), buffer_size).ok(),
                digest_b: digest(b.content.as_slice(), buffer_size).ok(),
            },
            Request::CopyContent { from, to } => {
                match to {
                    Side::A => {
                        a.content = slice_to_vec(b.content.as_slice());
                    },
                    Side::B => {
                        b.content = slice_to_vec(a.content.as_slice());
                    },
                }
                Event::Copied { ok: true }
            },
            Request::SetModified { side, modified } => {
                match side {
                    Side::A => {
                        a.modified = modified;
                    },
                    Side::B => {
                        b.modified = modified;
                    },
                }
                Event::ModifiedSet { ok: true }
            },
        };
        state = state.on_event(event);
    }
}

} // verus!
