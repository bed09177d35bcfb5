//! One pool slot: the lazy, race-free establishment of its connection.
//!
//! A slot's guarded cell starts empty and is populated at most once. The
//! guard, the network establishment and the liveness poll are suspension
//! points, so the driver outside this crate holds the guard and performs the
//! establishment; the decisions stand here. `slot_run` is the mathematical
//! model of a slot serving a sequence of guarded requests.

use vstd::prelude::*;

use crate::error::ClientError;

verus! {

/// Which verification a newly opened connection must pass before the slot
/// hands it out. Fixed per slot at pool construction.
#[derive(Debug, Clone, PartialEq, Eq, Hash, Structural)]
pub enum ConnectionCheck {
    /// No check.
    NoCheck,
    /// Verify node aliveness.
    Health,
    /// Verify that connected to archive node.
    Archive,
}

/// The guarded cell of one slot. `Ready` always holds the connection handle
/// together with its liveness watcher, never one without the other.
#[derive(Debug, Clone, PartialEq, Eq, Structural)]
pub enum SlotState<C, W> {
    /// No connection has been established yet (or the last attempt failed).
    Empty,
    /// A connection is established and reused by every later request.
    Ready { handle: C, watcher: W },
}

/// What a request must do with the slot, decided under the slot's guard.
#[derive(Debug, Clone, Copy, PartialEq, Eq, Structural)]
pub enum SlotDecision {
    /// Reuse the stored handle. When its liveness watcher has terminated,
    /// a warning is owed — but the handle is still handed out unchanged:
    /// dead connections are reported, not repaired.
    ReuseHandle { warn_dead: bool },
    /// The cell is empty: establish a connection per the slot's
    /// `ConnectionCheck` mode.
    Establish,
}

impl<C, W> SlotState<C, W> {
    /// Decides what a request does with this slot. `watcher_finished` is
    /// whether the stored liveness watcher reports termination; it is only
    /// consulted when the slot is `Ready`.
    ///
    /// A `Ready` slot always answers with its existing handle — a dead
    /// watcher adds a warning, never a re-establishment — and only an
    /// `Empty` slot establishes.
    pub fn decide_request(&self, watcher_finished: bool) -> (d: SlotDecision)
        ensures
            self is Ready ==> d == (SlotDecision::ReuseHandle { warn_dead: watcher_finished }),
            self is Empty ==> d == SlotDecision::Establish,
    {
        match self {
            SlotState::Ready { .. } => SlotDecision::ReuseHandle { warn_dead: watcher_finished },
            SlotState::Empty => SlotDecision::Establish,
        }
    }

    /// The stored connection handle: present exactly when the slot is
    /// `Ready`, and always the handle the cell holds, unchanged.
    pub fn stored_handle<'a>(&'a self) -> (h: Option<&'a C>)
        ensures
            h is Some <==> self is Ready,
            h matches Some(c) ==> *c == self->handle,
    {
        match self {
            SlotState::Ready { handle, .. } => Some(handle),
            SlotState::Empty => None,
        }
    }
}

/// Folds an establishment outcome into the slot: on success the cell
/// becomes `Ready` with exactly the produced handle/watcher pair; on
/// failure the cell stays `Empty` — a later request may try again — and
/// the failure is passed through unchanged.
pub fn complete_establishment<C, W>(outcome: Result<(C, W), ClientError>) -> (r: (
    SlotState<C, W>,
    Result<(), ClientError>,
))
    ensures
        outcome matches Ok(p) ==> r.0 == (SlotState::Ready { handle: p.0, watcher: p.1 })
            && r.1 is Ok,
        outcome matches Err(e) ==> r.0 is Empty && r.1 == Err::<(), ClientError>(e),
{
    match outcome {
        Ok((handle, watcher)) => (SlotState::Ready { handle, watcher }, Ok(())),
        Err(e) => (SlotState::Empty, Err(e)),
    }
}

/// The slot serving `outcomes.len()` requests, serialized on its guard:
/// the final state, paired with how many of the requests performed an
/// establishment. The i-th element of `outcomes` is the establishment
/// outcome the i-th request would see, consulted only when that request
/// finds the cell empty.
pub open spec fn slot_run<C, W>(
    s: SlotState<C, W>,
    outcomes: Seq<Result<(C, W), ClientError>>,
) -> (SlotState<C, W>, nat)
    decreases outcomes.len(),
{
    if outcomes.len() == 0 {
        (s, 0)
    } else if s is Ready {
        slot_run(s, outcomes.drop_first())
    } else {
        let next = match outcomes[0] {
            Ok(p) => SlotState::Ready { handle: p.0, watcher: p.1 },
            Err(_) => SlotState::Empty,
        };
        let rest = slot_run(next, outcomes.drop_first());
        (rest.0, rest.1 + 1)
    }
}

/// What each of the requests observes: the handle it is handed, or
/// nothing when it found the cell empty and its establishment failed.
pub open spec fn slot_observations<C, W>(
    s: SlotState<C, W>,
    outcomes: Seq<Result<(C, W), ClientError>>,
) -> Seq<Option<C>>
    decreases outcomes.len(),
{
    if outcomes.len() == 0 {
        Seq::empty()
    } else if s is Ready {
        seq![Some(s->handle)] + slot_observations(s, outcomes.drop_first())
    } else {
        match outcomes[0] {
            Ok(p) => seq![Some(p.0)] + slot_observations(
                SlotState::Ready { handle: p.0, watcher: p.1 },
                outcomes.drop_first(),
            ),
            Err(_) => seq![Option::<C>::None] + slot_observations(
                SlotState::<C, W>::Empty,
                outcomes.drop_first(),
            ),
        }
    }
}

/// A `Ready` slot is stable: over any further requests it is never
/// re-established and never changes, so every request observes the same
/// stored handle.
pub proof fn lemma_ready_stable<C, W>(
    s: SlotState<C, W>,
    outcomes: Seq<Result<(C, W), ClientError>>,
)
    requires
        s is Ready,
    ensures
        slot_run(s, outcomes) == (s, 0nat),
        slot_observations(s, outcomes).len() == outcomes.len(),
        forall|k: int|
            0 <= k < outcomes.len() ==> #[trigger] slot_observations(s, outcomes)[k] == Some(
                s->handle,
            ),
    decreases outcomes.len(),
{
    if outcomes.len() > 0 {
        lemma_ready_stable(s, outcomes.drop_first());
    }
}

/// Single establishment: requests for one slot serialize on its guard, so
/// when the first request finds the cell empty and its establishment
/// succeeds with the pair `p`, exactly one of the requests establishes,
/// the slot ends (and stays) `Ready` holding exactly `p`, and every one of
/// the requests observes that same handle.
pub proof fn lemma_single_establishment<C, W>(outcomes: Seq<Result<(C, W), ClientError>>)
    requires
        outcomes.len() > 0,
        outcomes[0] is Ok,
    ensures
        slot_run(SlotState::<C, W>::Empty, outcomes).1 == 1,
        slot_run(SlotState::<C, W>::Empty, outcomes).0 == (SlotState::Ready {
            handle: outcomes[0]->Ok_0.0,
            watcher: outcomes[0]->Ok_0.1,
        }),
        slot_observations(SlotState::<C, W>::Empty, outcomes).len() == outcomes.len(),
        forall|k: int|
            0 <= k < outcomes.len() ==> #[trigger] slot_observations(
                SlotState::<C, W>::Empty,
                outcomes,
            )[k] == Some(outcomes[0]->Ok_0.0),
{
    let p = outcomes[0]->Ok_0;
    let ready = SlotState::<C, W>::Ready { handle: p.0, watcher: p.1 };
    lemma_ready_stable(ready, outcomes.drop_first());
    let obs = slot_observations(SlotState::<C, W>::Empty, outcomes);
    let rest_obs = slot_observations(ready, outcomes.drop_first());
    assert(obs == seq![Some(p.0)] + rest_obs);
    assert forall|k: int| 0 <= k < outcomes.len() implies #[trigger] obs[k] == Some(p.0) by {
        if k > 0 {
            assert(obs[k] == rest_obs[k - 1]);
        }
    }
}

} // verus!
