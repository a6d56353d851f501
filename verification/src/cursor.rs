//! The cursor as the editor sees it: started, refreshed, focused, unfocused,
//! painted and put away.

use vstd::prelude::*;
use crate::alpha::OPAQUE;
use crate::paint::{
    CellFraction, Color, PAINT_ALPHA, Paint, PaintStyle, cursor_width, paint_of, paint_style,
};
use crate::phase::{AnimPhase, SHOWN_DWELL_MS};
use crate::state::{Actions, State, StateView, reset};

verus! {

/// The state right after a start: shown, opaque, one callback armed that
/// fires when the cursor has rested.
pub open spec fn started() -> StateView {
    StateView { level: OPAQUE as nat, phase: AnimPhase::Shown, timer: Some(SHOWN_DWELL_MS) }
}

/// What the host has to do when the cursor is started in state `s`: cancel
/// what was armed, arm the callback that ends the rest.
pub open spec fn start_actions(s: StateView) -> Actions {
    Actions { cancel: s.timer is Some, redraw: false, arm: Some(SHOWN_DWELL_MS) }
}

/// What the host has to do when the cursor in state `s` stops blinking:
/// cancel what was armed, arm nothing.
pub open spec fn stop_actions(s: StateView) -> Actions {
    Actions { cancel: s.timer is Some, redraw: false, arm: None }
}

/// A blinking text cursor.
#[derive(Clone, Copy, Debug)]
pub struct Cursor {
    /// What the timer's callback works on.
    pub state: State,
}

impl Cursor {
    /// A cursor that is shown and does not blink yet.
    pub fn new() -> (cursor: Cursor)
        ensures
            cursor.state@ == reset(AnimPhase::Shown),
    {
        Cursor { state: State::new() }
    }

    /// Starts the blink cycle from the top: the cursor is shown and opaque,
    /// and one callback is armed.
    pub fn start(&mut self) -> (actions: Actions)
        ensures
            final(self).state@ == started(),
            actions == start_actions(old(self).state@),
    {
        let cancel = self.state.reset_to(AnimPhase::Shown);
        self.state.arm(SHOWN_DWELL_MS);
        Actions { cancel, redraw: false, arm: Some(SHOWN_DWELL_MS) }
    }

    /// Starts the blink cycle anew, as after a move of the cursor.
    pub fn reset_state(&mut self) -> (actions: Actions)
        ensures
            final(self).state@ == started(),
            actions == start_actions(old(self).state@),
    {
        self.start()
    }

    /// Starts the blink cycle anew when the editor gets the input focus.
    pub fn enter_focus(&mut self) -> (actions: Actions)
        ensures
            final(self).state@ == started(),
            actions == start_actions(old(self).state@),
    {
        self.start()
    }

    /// Stops blinking when the editor loses the input focus: the cursor stays
    /// opaque and nothing is armed.
    pub fn leave_focus(&mut self) -> (actions: Actions)
        ensures
            final(self).state@ == reset(AnimPhase::NoFocus),
            actions == stop_actions(old(self).state@),
    {
        let cancel = self.state.reset_to(AnimPhase::NoFocus);
        Actions { cancel, redraw: false, arm: None }
    }

    /// Puts the cursor away for good. The host cancels the pending callback,
    /// so that none fires for a cursor that is gone.
    pub fn shutdown(self) -> (actions: Actions)
        ensures
            actions == stop_actions(self.state@),
    {
        Actions { cancel: self.state.timer().is_some(), redraw: false, arm: None }
    }

    /// How to paint the cursor over the background `bg`, in insert mode or
    /// not, over a double-width glyph or not. Changes nothing.
    pub fn draw(&self, insert_mode: bool, double_width: bool, bg: &Color) -> (paint: Paint)
        ensures
            paint == paint_of(
                self.state@.level,
                self.state@.phase,
                insert_mode,
                double_width,
                *bg,
            ),
            paint.alpha == PAINT_ALPHA * self.state@.level,
            paint.style == paint_style(self.state@.phase),
            paint.width == cursor_width(insert_mode, double_width),
    {
        let level = self.state.level();
        let width = if insert_mode {
            CellFraction { num: 1, den: 5 }
        } else if double_width {
            CellFraction { num: 2, den: 1 }
        } else {
            CellFraction { num: 1, den: 1 }
        };
        let style = if self.state.phase() == AnimPhase::NoFocus {
            PaintStyle::Stroke
        } else {
            PaintStyle::Fill
        };
        assert(PAINT_ALPHA * level <= 600_000) by (nonlinear_arith)
            requires
                level <= 1000,
                PAINT_ALPHA == 600,
        ;
        Paint { color: bg.contrast(), alpha: PAINT_ALPHA * level, width, style }
    }
}

} // verus!
