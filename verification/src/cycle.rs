//! The blink cycle: what a run of timer firings does to a started cursor.

use vstd::prelude::*;
use crate::alpha::OPAQUE;
use crate::cursor::started;
use crate::phase::{AnimPhase, HIDDEN_DWELL_MS, RAMP_INTERVAL_MS, SHOWN_DWELL_MS};
use crate::state::{StateView, fired, valid};

verus! {

/// Number of firings after which a started cursor is back where it started.
pub const CYCLE_FIRINGS: u32 = 10;

/// The state after the timer has fired `n` times in a row from state `s`.
pub open spec fn fired_times(s: StateView, n: nat) -> StateView
    decreases n,
{
    if n == 0 {
        s
    } else {
        fired(fired_times(s, (n - 1) as nat))
    }
}

/// The states of one blink cycle in order, counted from the start: shown,
/// four steps down, hidden, four steps up.
pub open spec fn cycle_state(i: int) -> StateView {
    if i == 0 {
        StateView { level: 1000, phase: AnimPhase::Shown, timer: Some(SHOWN_DWELL_MS) }
    } else if i == 1 {
        StateView { level: 1000, phase: AnimPhase::Hide, timer: Some(RAMP_INTERVAL_MS) }
    } else if i == 2 {
        StateView { level: 700, phase: AnimPhase::Hide, timer: Some(RAMP_INTERVAL_MS) }
    } else if i == 3 {
        StateView { level: 400, phase: AnimPhase::Hide, timer: Some(RAMP_INTERVAL_MS) }
    } else if i == 4 {
        StateView { level: 100, phase: AnimPhase::Hide, timer: Some(RAMP_INTERVAL_MS) }
    } else if i == 5 {
        StateView { level: 0, phase: AnimPhase::Hidden, timer: Some(HIDDEN_DWELL_MS) }
    } else if i == 6 {
        StateView { level: 0, phase: AnimPhase::Show, timer: Some(RAMP_INTERVAL_MS) }
    } else if i == 7 {
        StateView { level: 300, phase: AnimPhase::Show, timer: Some(RAMP_INTERVAL_MS) }
    } else if i == 8 {
        StateView { level: 600, phase: AnimPhase::Show, timer: Some(RAMP_INTERVAL_MS) }
    } else {
        StateView { level: 900, phase: AnimPhase::Show, timer: Some(RAMP_INTERVAL_MS) }
    }
}

/// A firing keeps a valid state valid.
pub proof fn lemma_fired_valid(s: StateView)
    requires
        valid(s),
    ensures
        valid(fired(s)),
{
}

/// Each firing moves the cycle on by one state, and the last state of the
/// cycle leads back to the first.
pub proof fn lemma_cycle_step(i: int)
    requires
        0 <= i < CYCLE_FIRINGS,
    ensures
        fired(cycle_state(i)) == cycle_state((i + 1) % (CYCLE_FIRINGS as int)),
{
}

/// With nothing else happening, `n` firings take a started cursor through the
/// cycle shown, hiding, hidden, showing and back to shown, again and again:
/// where it stands depends only on `n` modulo the length of the cycle.
pub proof fn lemma_blink_cycle(n: nat)
    ensures
        fired_times(started(), n) == cycle_state(n as int % (CYCLE_FIRINGS as int)),
    decreases n,
{
    if n > 0 {
        lemma_blink_cycle((n - 1) as nat);
        lemma_cycle_step((n - 1) as int % (CYCLE_FIRINGS as int));
    }
}

/// A whole cycle of firings brings a started cursor back to where it was.
pub proof fn lemma_cycle_returns(n: nat)
    ensures
        fired_times(started(), n + CYCLE_FIRINGS as nat) == fired_times(started(), n),
{
    lemma_blink_cycle(n);
    lemma_blink_cycle(n + CYCLE_FIRINGS as nat);
}

/// While the cursor fades out, each firing lowers a level that is not yet
/// zero, and the cursor is hidden only at level zero exactly.
pub proof fn lemma_hiding_falls(s: StateView)
    requires
        valid(s),
        s.phase == AnimPhase::Hide,
    ensures
        s.level > 0 ==> fired(s).level < s.level,
        fired(s).phase == AnimPhase::Hide || fired(s).phase == AnimPhase::Hidden,
        fired(s).phase == AnimPhase::Hidden ==> fired(s).level == 0,
{
}

/// While the cursor fades in, each firing raises a level that is not yet
/// full, and the cursor is shown only at full opacity exactly.
pub proof fn lemma_showing_rises(s: StateView)
    requires
        valid(s),
        s.phase == AnimPhase::Show,
    ensures
        s.level < OPAQUE ==> fired(s).level > s.level,
        fired(s).phase == AnimPhase::Show || fired(s).phase == AnimPhase::Shown,
        fired(s).phase == AnimPhase::Shown ==> fired(s).level == OPAQUE,
{
}

} // verus!
