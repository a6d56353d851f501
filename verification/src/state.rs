//! The animation state and its two moves: a reset from outside, and one
//! firing of the timer.

use vstd::prelude::*;
use crate::alpha::{Alpha, OPAQUE, lowered, raised};
use crate::phase::{AnimPhase, RAMP_STEP, next_delay, next_phase};

verus! {

/// What a state holds, as plain values.
pub struct StateView {
    /// Opacity in thousandths.
    pub level: nat,
    /// Phase of the blink cycle.
    pub phase: AnimPhase,
    /// Delay of the one callback that is armed, in milliseconds, if one is.
    pub timer: Option<u32>,
}

/// What the host has to do after a move, in this order: cancel the callback it
/// has armed for this cursor, ask for a repaint of the cursor's cell, arm a
/// one-shot callback that fires after the given milliseconds.
#[derive(Clone, Copy, Debug, PartialEq, Eq, Structural)]
pub struct Actions {
    pub cancel: bool,
    pub redraw: bool,
    pub arm: Option<u32>,
}

/// Every state keeps its level within bounds, and an unfocused cursor is
/// opaque and has no callback armed.
pub open spec fn valid(s: StateView) -> bool {
    &&& s.level <= OPAQUE
    &&& s.phase == AnimPhase::NoFocus ==> s.timer is None && s.level == OPAQUE
}

/// The state right after a reset to `phase`: opaque, nothing armed.
pub open spec fn reset(phase: AnimPhase) -> StateView {
    StateView { level: OPAQUE as nat, phase, timer: None }
}

/// What the ramp step of a firing in state `s` answers: whether the ramp is
/// still on its way. Outside the two fading phases no step is taken.
pub open spec fn ramping(s: StateView) -> bool {
    match s.phase {
        AnimPhase::Hide => RAMP_STEP <= s.level,
        AnimPhase::Show => s.level + RAMP_STEP <= OPAQUE,
        _ => false,
    }
}

/// The state after the timer has fired in state `s`.
pub open spec fn fired(s: StateView) -> StateView {
    StateView {
        level: match s.phase {
            AnimPhase::Hide => lowered(s.level, RAMP_STEP as nat),
            AnimPhase::Show => raised(s.level, RAMP_STEP as nat),
            _ => s.level,
        },
        phase: next_phase(s.phase, ramping(s)),
        timer: next_delay(s.phase, ramping(s)),
    }
}

/// What the host has to do when the timer has fired in state `s`: repaint,
/// and arm the callback that the new state holds. Nothing is cancelled: the
/// callback that fired is spent.
pub open spec fn fired_actions(s: StateView) -> Actions {
    Actions { cancel: false, redraw: true, arm: fired(s).timer }
}

/// Opacity, phase and pending callback of one cursor.
#[derive(Clone, Copy, Debug)]
pub struct State {
    alpha: Alpha,
    anim_phase: AnimPhase,
    timer: Option<u32>,
}

impl View for State {
    type V = StateView;

    closed spec fn view(&self) -> StateView {
        StateView { level: self.alpha@, phase: self.anim_phase, timer: self.timer }
    }
}

impl State {
    #[verifier::type_invariant]
    closed spec fn inv(self) -> bool {
        self.anim_phase == AnimPhase::NoFocus ==> self.timer is None && self.alpha@ == OPAQUE
    }

    /// A shown, opaque cursor with nothing armed.
    pub fn new() -> (state: State)
        ensures
            state@ == reset(AnimPhase::Shown),
    {
        State { alpha: Alpha::opaque(), anim_phase: AnimPhase::Shown, timer: None }
    }

    /// Makes the cursor opaque, puts it in `phase` and forgets the pending
    /// callback. Returns whether there was one, which the host then cancels.
    pub fn reset_to(&mut self, phase: AnimPhase) -> (cancel: bool)
        ensures
            final(self)@ == reset(phase),
            cancel == old(self)@.timer is Some,
    {
        let cancel = self.timer.is_some();
        *self = State { alpha: Alpha::opaque(), anim_phase: phase, timer: None };
        cancel
    }

    /// Records that a one-shot callback has been asked for, to fire after
    /// `delay` milliseconds. An unfocused cursor arms nothing: there the call
    /// changes nothing and returns `false`.
    pub fn arm(&mut self, delay: u32) -> (armed: bool)
        ensures
            armed == (old(self)@.phase != AnimPhase::NoFocus),
            armed ==> final(self)@ == (StateView { timer: Some(delay), ..old(self)@ }),
            !armed ==> final(self)@ == old(self)@,
    {
        if self.anim_phase == AnimPhase::NoFocus {
            false
        } else {
            self.timer = Some(delay);
            true
        }
    }

    /// The opacity in thousandths.
    pub fn level(&self) -> (level: u32)
        ensures
            level == self@.level,
            valid(self@),
    {
        proof {
            use_type_invariant(self);
        }
        self.alpha.level()
    }

    /// The phase of the blink cycle.
    pub fn phase(&self) -> (phase: AnimPhase)
        ensures
            phase == self@.phase,
            valid(self@),
    {
        proof {
            use_type_invariant(self);
            use_type_invariant(&self.alpha);
        }
        self.anim_phase
    }

    /// The delay of the armed callback in milliseconds, or `None` where none is armed.
    pub fn timer(&self) -> (timer: Option<u32>)
        ensures
            timer == self@.timer,
            valid(self@),
    {
        proof {
            use_type_invariant(self);
            use_type_invariant(&self.alpha);
        }
        self.timer
    }
}

/// One firing of the timer: takes the ramp step that the phase asks for, moves
/// to the next phase, and records the callback that is to fire next. The host
/// repaints the cursor and arms that callback; the one that fired is spent.
pub fn anim_step(state: &mut State) -> (actions: Actions)
    ensures
        final(state)@ == fired(old(state)@),
        actions == fired_actions(old(state)@),
{
    proof {
        use_type_invariant(&*state);
    }
    let mut alpha = state.alpha;
    let phase = state.anim_phase;
    let ramping = match phase {
        AnimPhase::Hide => alpha.fade(RAMP_STEP),
        AnimPhase::Show => alpha.show(RAMP_STEP),
        _ => false,
    };
    let (next, delay) = phase.advance(ramping);
    *state = State { alpha, anim_phase: next, timer: delay };
    Actions { cancel: false, redraw: true, arm: delay }
}

} // verus!
