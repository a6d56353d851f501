//! The host's scheduler as the cursor sees it: how many callbacks it holds
//! for one cursor, whatever happens to the cursor and in whatever order.

use vstd::prelude::*;
use crate::cursor::{start_actions, started, stop_actions};
use crate::phase::AnimPhase;
use crate::state::{Actions, StateView, fired, fired_actions, reset, valid};

verus! {

/// What can happen to a cursor.
pub enum Event {
    /// It is started, refreshed, or the editor gets the input focus.
    Start,
    /// The editor loses the input focus.
    LeaveFocus,
    /// The armed callback fires.
    Fire,
}

/// Number of callbacks that the state `s` counts as armed.
pub open spec fn armed(s: StateView) -> nat {
    if s.timer is Some {
        1
    } else {
        0
    }
}

/// Number of callbacks the host holds once one of `pending` is gone, by
/// firing or by being cancelled.
pub open spec fn one_less(pending: nat) -> nat {
    if pending > 0 {
        (pending - 1) as nat
    } else {
        0
    }
}

/// Number of callbacks the host holds after it has performed `actions`,
/// having held `pending` before.
pub open spec fn performed(pending: nat, actions: Actions) -> nat {
    let kept = if actions.cancel {
        one_less(pending)
    } else {
        pending
    };
    if actions.arm is Some {
        kept + 1
    } else {
        kept
    }
}

/// The state that `event` leaves behind in state `s`.
pub open spec fn state_after(s: StateView, event: Event) -> StateView {
    match event {
        Event::Start => started(),
        Event::LeaveFocus => reset(AnimPhase::NoFocus),
        Event::Fire => fired(s),
    }
}

/// What the host is asked to do when `event` happens in state `s`.
pub open spec fn actions_after(s: StateView, event: Event) -> Actions {
    match event {
        Event::Start => start_actions(s),
        Event::LeaveFocus => stop_actions(s),
        Event::Fire => fired_actions(s),
    }
}

/// Number of callbacks the host holds after `event` in state `s`, having held
/// `pending` before. A callback that fires is spent before anything is armed.
pub open spec fn pending_after(pending: nat, s: StateView, event: Event) -> nat {
    let left = if event is Fire {
        one_less(pending)
    } else {
        pending
    };
    performed(left, actions_after(s, event))
}

/// The state after all of `events` have happened in turn, from state `s`.
pub open spec fn state_after_all(s: StateView, events: Seq<Event>) -> StateView
    decreases events.len(),
{
    if events.len() == 0 {
        s
    } else {
        state_after(state_after_all(s, events.drop_last()), events.last())
    }
}

/// Number of callbacks the host holds after all of `events`, from state `s`
/// and with `pending` callbacks held.
pub open spec fn pending_after_all(pending: nat, s: StateView, events: Seq<Event>) -> nat
    decreases events.len(),
{
    if events.len() == 0 {
        pending
    } else {
        pending_after(
            pending_after_all(pending, s, events.drop_last()),
            state_after_all(s, events.drop_last()),
            events.last(),
        )
    }
}

/// Whether `events` can happen from state `s` with `pending` callbacks held:
/// a callback fires only while the host holds one.
pub open spec fn can_happen(pending: nat, s: StateView, events: Seq<Event>) -> bool
    decreases events.len(),
{
    if events.len() == 0 {
        true
    } else {
        &&& can_happen(pending, s, events.drop_last())
        &&& events.last() is Fire ==> pending_after_all(pending, s, events.drop_last()) > 0
    }
}

/// A start leaves the host with exactly one callback, a loss of focus with
/// none, and a firing with the one that the new state holds, if the host held
/// what the state counted before.
pub proof fn lemma_event_keeps_count(s: StateView, event: Event)
    requires
        event is Fire ==> s.timer is Some,
    ensures
        pending_after(armed(s), s, event) == armed(state_after(s, event)),
        event is Start ==> armed(state_after(s, event)) == 1,
        event is LeaveFocus ==> armed(state_after(s, event)) == 0,
{
}

/// Whatever happens to a cursor, and in whatever order, the host never
/// holds more than one callback for it, and it holds one exactly when the
/// state has one armed.
pub proof fn lemma_at_most_one_callback(s: StateView, events: Seq<Event>)
    requires
        valid(s),
        can_happen(armed(s), s, events),
    ensures
        pending_after_all(armed(s), s, events) == armed(state_after_all(s, events)),
        pending_after_all(armed(s), s, events) <= 1,
        valid(state_after_all(s, events)),
    decreases events.len(),
{
    if events.len() > 0 {
        lemma_at_most_one_callback(s, events.drop_last());
        lemma_event_keeps_count(state_after_all(s, events.drop_last()), events.last());
    }
}

} // verus!
