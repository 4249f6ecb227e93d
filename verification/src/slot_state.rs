//! The per-slot status state machine: monotonic progression
//! Processed < Confirmed < Rooted, with Dead terminal. Invalid transitions
//! are rejected (not applied, never fatal).

use vstd::prelude::*;
use crate::records::SlotStatus;

verus! {

/// A stored status from which no further transition is valid.
pub open spec fn is_terminal(s: SlotStatus) -> bool {
    s == SlotStatus::Rooted || s == SlotStatus::Dead
}

/// The transitions the tracker accepts: absent -> Processed,
/// Processed -> Confirmed, Confirmed -> Rooted, and any non-terminal state
/// (absent included) -> Dead. Everything else is rejected.
pub open spec fn valid_transition(prev: Option<SlotStatus>, next: SlotStatus) -> bool {
    match next {
        SlotStatus::Processed => prev is None,
        SlotStatus::Confirmed => prev == Some(SlotStatus::Processed),
        SlotStatus::Rooted => prev == Some(SlotStatus::Confirmed),
        SlotStatus::Dead => match prev {
            None => true,
            Some(p) => !is_terminal(p),
        },
    }
}

/// Decides whether the status stored for a slot (`prev`, `None` when the slot
/// has not been seen) may move to `next`.
pub fn check_slot_transition(prev: Option<SlotStatus>, next: SlotStatus) -> (r: bool)
    ensures
        r == valid_transition(prev, next),
{
    match next {
        SlotStatus::Processed => prev.is_none(),
        SlotStatus::Confirmed => matches!(prev, Some(SlotStatus::Processed)),
        SlotStatus::Rooted => matches!(prev, Some(SlotStatus::Confirmed)),
        SlotStatus::Dead => match prev {
            None => true,
            Some(p) => !matches!(p, SlotStatus::Rooted) && !matches!(p, SlotStatus::Dead),
        },
    }
}

/// Once a slot's stored status is terminal (Rooted or Dead), no later update
/// is ever applied: the stored status can never change again.
pub proof fn lemma_terminal_is_forever(prev: SlotStatus, next: SlotStatus)
    requires
        is_terminal(prev),
    ensures
        !valid_transition(Some(prev), next),
{
}

/// A valid transition strictly advances the status: it never maps a stored
/// status back to itself, so repeated delivery of one status is rejected.
pub proof fn lemma_no_self_transition(prev: SlotStatus)
    ensures
        !valid_transition(Some(prev), prev),
{
}

} // verus!
