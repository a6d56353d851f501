//! The phases of the blink cycle and the step from one phase to the next.

use vstd::prelude::*;

verus! {

/// Time a fully shown cursor rests before it starts to fade, in milliseconds.
pub const SHOWN_DWELL_MS: u32 = 500;

/// Time a hidden cursor rests before it starts to come back, in milliseconds.
pub const HIDDEN_DWELL_MS: u32 = 300;

/// Time between two steps of a ramp, and before its first step, in milliseconds.
pub const RAMP_INTERVAL_MS: u32 = 60;

/// Change of opacity per ramp step, in thousandths.
pub const RAMP_STEP: u32 = 300;

/// Where the cursor is in its blink cycle.
#[derive(Clone, Copy, Debug, PartialEq, Eq, Structural)]
pub enum AnimPhase {
    /// Fully opaque, resting.
    Shown,
    /// Fading out, one ramp step per firing.
    Hide,
    /// Fully transparent, resting.
    Hidden,
    /// Fading in, one ramp step per firing.
    Show,
    /// The editor has no input focus: opaque, outlined, no timer running.
    NoFocus,
}

/// Phase that follows `phase` when the timer fires. `ramping` is what the ramp
/// step of this firing answered; it counts in the two fading phases only.
pub open spec fn next_phase(phase: AnimPhase, ramping: bool) -> AnimPhase {
    match phase {
        AnimPhase::Shown => AnimPhase::Hide,
        AnimPhase::Hide => if ramping {
            AnimPhase::Hide
        } else {
            AnimPhase::Hidden
        },
        AnimPhase::Hidden => AnimPhase::Show,
        AnimPhase::Show => if ramping {
            AnimPhase::Show
        } else {
            AnimPhase::Shown
        },
        AnimPhase::NoFocus => AnimPhase::NoFocus,
    }
}

/// Delay until the next firing, decided when the timer fires in `phase`, or
/// `None` where nothing is to fire again.
pub open spec fn next_delay(phase: AnimPhase, ramping: bool) -> Option<u32> {
    match phase {
        AnimPhase::Shown | AnimPhase::Hidden => Some(RAMP_INTERVAL_MS),
        AnimPhase::Hide => if ramping {
            Some(RAMP_INTERVAL_MS)
        } else {
            Some(HIDDEN_DWELL_MS)
        },
        AnimPhase::Show => if ramping {
            Some(RAMP_INTERVAL_MS)
        } else {
            Some(SHOWN_DWELL_MS)
        },
        AnimPhase::NoFocus => None,
    }
}

impl AnimPhase {
    /// The step of the phase machine for one firing of the timer: the phase that
    /// follows and the delay until the next firing. It touches nothing else.
    pub fn advance(self, ramping: bool) -> (next: (AnimPhase, Option<u32>))
        ensures
            next.0 == next_phase(self, ramping),
            next.1 == next_delay(self, ramping),
    {
        match self {
            AnimPhase::Shown => (AnimPhase::Hide, Some(RAMP_INTERVAL_MS)),
            AnimPhase::Hide => {
                if ramping {
                    (AnimPhase::Hide, Some(RAMP_INTERVAL_MS))
                } else {
                    (AnimPhase::Hidden, Some(HIDDEN_DWELL_MS))
                }
            },
            AnimPhase::Hidden => (AnimPhase::Show, Some(RAMP_INTERVAL_MS)),
            AnimPhase::Show => {
                if ramping {
                    (AnimPhase::Show, Some(RAMP_INTERVAL_MS))
                } else {
                    (AnimPhase::Shown, Some(SHOWN_DWELL_MS))
                }
            },
            AnimPhase::NoFocus => (AnimPhase::NoFocus, None),
        }
    }
}

} // verus!
