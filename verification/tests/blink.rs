use cursor_blink::cursor::Cursor;
use cursor_blink::paint::{CellFraction, Color, PaintStyle};
use cursor_blink::phase::{
    AnimPhase, HIDDEN_DWELL_MS, RAMP_INTERVAL_MS, RAMP_STEP, SHOWN_DWELL_MS,
};
use cursor_blink::state::{anim_step, Actions, State};

/// A scheduler that only counts: how many callbacks it holds, and what it was asked.
struct Spy {
    pending: u32,
    delay: Option<u32>,
    redraws: u32,
    cancelled: u32,
}

fn spy() -> Spy {
    Spy { pending: 0, delay: None, redraws: 0, cancelled: 0 }
}

fn perform(spy: &mut Spy, actions: Actions) {
    if actions.cancel {
        assert!(spy.pending > 0);
        spy.pending -= 1;
        spy.delay = None;
        spy.cancelled += 1;
    }
    if actions.redraw {
        spy.redraws += 1;
    }
    if let Some(delay) = actions.arm {
        spy.pending += 1;
        spy.delay = Some(delay);
    }
}

/// Lets the pending callback fire, if there is one. Returns whether one fired.
fn fire(spy: &mut Spy, cursor: &mut Cursor) -> bool {
    if spy.pending == 0 {
        return false;
    }
    spy.pending -= 1;
    spy.delay = None;
    let actions = anim_step(&mut cursor.state);
    perform(spy, actions);
    true
}

fn black() -> Color {
    Color { r: 0, g: 0, b: 0 }
}

#[test]
fn constants_of_the_cycle() {
    assert_eq!(SHOWN_DWELL_MS, 500);
    assert_eq!(HIDDEN_DWELL_MS, 300);
    assert_eq!(RAMP_INTERVAL_MS, 60);
    assert_eq!(RAMP_STEP, 300);
}

#[test]
fn a_new_cursor_is_shown_and_idle() {
    let c = Cursor::new();
    assert_eq!(c.state.phase(), AnimPhase::Shown);
    assert_eq!(c.state.level(), 1000);
    assert_eq!(c.state.timer(), None);
    let s = State::new();
    assert_eq!(s.phase(), AnimPhase::Shown);
    assert_eq!(s.level(), 1000);
    assert_eq!(s.timer(), None);
}

#[test]
fn advance_follows_the_table() {
    assert_eq!(AnimPhase::Shown.advance(false), (AnimPhase::Hide, Some(60)));
    assert_eq!(AnimPhase::Shown.advance(true), (AnimPhase::Hide, Some(60)));
    assert_eq!(AnimPhase::Hide.advance(true), (AnimPhase::Hide, Some(60)));
    assert_eq!(AnimPhase::Hide.advance(false), (AnimPhase::Hidden, Some(300)));
    assert_eq!(AnimPhase::Hidden.advance(false), (AnimPhase::Show, Some(60)));
    assert_eq!(AnimPhase::Hidden.advance(true), (AnimPhase::Show, Some(60)));
    assert_eq!(AnimPhase::Show.advance(true), (AnimPhase::Show, Some(60)));
    assert_eq!(AnimPhase::Show.advance(false), (AnimPhase::Shown, Some(500)));
    assert_eq!(AnimPhase::NoFocus.advance(true), (AnimPhase::NoFocus, None));
    assert_eq!(AnimPhase::NoFocus.advance(false), (AnimPhase::NoFocus, None));
}

#[test]
fn start_shows_the_cursor_and_arms_one_callback() {
    let mut c = Cursor::new();
    let actions = c.start();
    assert_eq!(actions, Actions { cancel: false, redraw: false, arm: Some(500) });
    assert_eq!(c.state.phase(), AnimPhase::Shown);
    assert_eq!(c.state.level(), 1000);
    assert_eq!(c.state.timer(), Some(500));
}

#[test]
fn reset_state_and_enter_focus_do_what_start_does() {
    let mut a = Cursor::new();
    let mut b = Cursor::new();
    let mut c = Cursor::new();
    for cursor in [&mut a, &mut b, &mut c] {
        cursor.start();
        anim_step(&mut cursor.state);
        anim_step(&mut cursor.state);
        assert_eq!(cursor.state.level(), 700);
    }
    let expected = Actions { cancel: true, redraw: false, arm: Some(500) };
    assert_eq!(a.start(), expected);
    assert_eq!(b.reset_state(), expected);
    assert_eq!(c.enter_focus(), expected);
    for cursor in [&a, &b, &c] {
        assert_eq!(cursor.state.phase(), AnimPhase::Shown);
        assert_eq!(cursor.state.level(), 1000);
        assert_eq!(cursor.state.timer(), Some(500));
    }
}

#[test]
fn leave_focus_pins_the_cursor_and_arms_nothing() {
    let mut c = Cursor::new();
    c.start();
    anim_step(&mut c.state);
    anim_step(&mut c.state);
    let actions = c.leave_focus();
    assert_eq!(actions, Actions { cancel: true, redraw: false, arm: None });
    assert_eq!(c.state.phase(), AnimPhase::NoFocus);
    assert_eq!(c.state.level(), 1000);
    assert_eq!(c.state.timer(), None);
}

#[test]
fn leave_focus_without_a_callback_cancels_nothing() {
    let mut c = Cursor::new();
    assert_eq!(c.leave_focus(), Actions { cancel: false, redraw: false, arm: None });
    assert_eq!(c.leave_focus(), Actions { cancel: false, redraw: false, arm: None });
    assert_eq!(c.state.phase(), AnimPhase::NoFocus);
}

#[test]
fn a_firing_without_focus_changes_nothing_and_arms_nothing() {
    let mut c = Cursor::new();
    c.start();
    c.leave_focus();
    let actions = anim_step(&mut c.state);
    assert_eq!(actions, Actions { cancel: false, redraw: true, arm: None });
    assert_eq!(c.state.phase(), AnimPhase::NoFocus);
    assert_eq!(c.state.level(), 1000);
    assert_eq!(c.state.timer(), None);
}

#[test]
fn focus_brings_the_cycle_back() {
    let mut c = Cursor::new();
    c.leave_focus();
    assert_eq!(c.enter_focus(), Actions { cancel: false, redraw: false, arm: Some(500) });
    assert_eq!(c.state.phase(), AnimPhase::Shown);
    assert_eq!(c.state.timer(), Some(500));
}

#[test]
fn reset_to_reports_the_pending_callback() {
    let mut s = State::new();
    assert!(!s.reset_to(AnimPhase::Hidden));
    assert_eq!(s.phase(), AnimPhase::Hidden);
    assert_eq!(s.level(), 1000);
    assert!(s.arm(300));
    assert_eq!(s.timer(), Some(300));
    assert!(s.reset_to(AnimPhase::Shown));
    assert_eq!(s.timer(), None);
    assert_eq!(s.phase(), AnimPhase::Shown);
}

#[test]
fn arm_is_refused_without_focus() {
    let mut s = State::new();
    s.reset_to(AnimPhase::NoFocus);
    assert!(!s.arm(500));
    assert_eq!(s.timer(), None);
    assert_eq!(s.phase(), AnimPhase::NoFocus);
}

#[test]
fn every_firing_asks_for_a_repaint() {
    let mut c = Cursor::new();
    let mut s = spy();
    perform(&mut s, c.start());
    assert_eq!(s.redraws, 0);
    for n in 1..=25u32 {
        assert!(fire(&mut s, &mut c));
        assert_eq!(s.redraws, n);
    }
}

#[test]
fn firings_cycle_through_the_phases() {
    let expected = [
        (AnimPhase::Hide, 1000, 60),
        (AnimPhase::Hide, 700, 60),
        (AnimPhase::Hide, 400, 60),
        (AnimPhase::Hide, 100, 60),
        (AnimPhase::Hidden, 0, 300),
        (AnimPhase::Show, 0, 60),
        (AnimPhase::Show, 300, 60),
        (AnimPhase::Show, 600, 60),
        (AnimPhase::Show, 900, 60),
        (AnimPhase::Shown, 1000, 500),
    ];
    let mut c = Cursor::new();
    c.start();
    for round in 0..3 {
        for (phase, level, delay) in expected {
            let actions = anim_step(&mut c.state);
            assert_eq!(actions, Actions { cancel: false, redraw: true, arm: Some(delay) });
            assert_eq!(c.state.phase(), phase, "round {}", round);
            assert_eq!(c.state.level(), level);
            assert_eq!(c.state.timer(), Some(delay));
        }
    }
}

#[test]
fn opacity_moves_strictly_while_fading() {
    let mut c = Cursor::new();
    c.start();
    for _ in 0..40 {
        let before = (c.state.phase(), c.state.level());
        anim_step(&mut c.state);
        let after = (c.state.phase(), c.state.level());
        match before.0 {
            AnimPhase::Hide => {
                assert!(after.1 < before.1);
                assert_eq!(after.0 == AnimPhase::Hidden, after.1 == 0);
            }
            AnimPhase::Show => {
                assert!(after.1 > before.1);
                assert_eq!(after.0 == AnimPhase::Shown, after.1 == 1000);
            }
            _ => assert_eq!(after.1, before.1),
        }
    }
}

#[test]
fn full_cycle_returns_to_the_start() {
    let mut c = Cursor::new();
    c.start();
    anim_step(&mut c.state);
    assert_eq!(c.state.phase(), AnimPhase::Hide);
    assert_eq!(c.state.level(), 1000);
    let mut firings = 0;
    while c.state.level() > 0 {
        assert_eq!(c.state.phase(), AnimPhase::Hide);
        anim_step(&mut c.state);
        firings += 1;
    }
    assert_eq!(firings, 4);
    assert_eq!(c.state.phase(), AnimPhase::Hidden);
    anim_step(&mut c.state);
    assert_eq!(c.state.phase(), AnimPhase::Show);
    assert_eq!(c.state.level(), 0);
    firings = 0;
    while c.state.level() < 1000 {
        assert_eq!(c.state.phase(), AnimPhase::Show);
        anim_step(&mut c.state);
        firings += 1;
    }
    assert_eq!(firings, 4);
    assert_eq!(c.state.phase(), AnimPhase::Shown);
    assert_eq!(c.state.level(), 1000);
    assert_eq!(c.state.timer(), Some(500));
}

#[test]
fn the_scheduler_never_holds_more_than_one_callback() {
    let mut c = Cursor::new();
    let mut s = spy();
    let script = [0u8, 2, 2, 0, 2, 2, 2, 1, 2, 1, 0, 0, 2, 2, 2, 2, 2, 2, 3, 2, 1, 2, 0, 2];
    for op in script {
        match op {
            0 => perform(&mut s, c.start()),
            1 => perform(&mut s, c.leave_focus()),
            3 => perform(&mut s, c.reset_state()),
            _ => {
                let fired = fire(&mut s, &mut c);
                assert_eq!(fired, c.state.phase() != AnimPhase::NoFocus);
            }
        }
        assert!(s.pending <= 1);
        assert_eq!(s.pending == 1, c.state.timer().is_some());
        assert_eq!(s.delay, c.state.timer());
    }
}

#[test]
fn shutdown_cancels_the_pending_callback() {
    let mut c = Cursor::new();
    let mut s = spy();
    perform(&mut s, c.start());
    assert_eq!(s.pending, 1);
    assert!(fire(&mut s, &mut c));
    assert_eq!(s.pending, 1);
    let actions = c.shutdown();
    assert_eq!(actions, Actions { cancel: true, redraw: false, arm: None });
    perform(&mut s, actions);
    assert_eq!(s.pending, 0);
    assert_eq!(s.cancelled, 1);
    let redraws = s.redraws;
    let mut other = Cursor::new();
    assert!(!fire(&mut s, &mut other));
    assert_eq!(s.redraws, redraws);
    assert_eq!(other.state.phase(), AnimPhase::Shown);
    assert_eq!(other.state.timer(), None);
}

#[test]
fn shutdown_of_an_idle_cursor_cancels_nothing() {
    assert_eq!(Cursor::new().shutdown(), Actions { cancel: false, redraw: false, arm: None });
    let mut c = Cursor::new();
    c.start();
    c.leave_focus();
    assert_eq!(c.shutdown(), Actions { cancel: false, redraw: false, arm: None });
}

#[test]
fn draw_outlines_only_without_focus() {
    let mut c = Cursor::new();
    assert_eq!(c.draw(false, false, &black()).style, PaintStyle::Fill);
    c.start();
    for _ in 0..12 {
        assert_eq!(c.draw(false, false, &black()).style, PaintStyle::Fill);
        anim_step(&mut c.state);
    }
    c.leave_focus();
    assert_eq!(c.draw(false, false, &black()).style, PaintStyle::Stroke);
    assert_eq!(c.draw(true, true, &black()).style, PaintStyle::Stroke);
    c.enter_focus();
    assert_eq!(c.draw(false, false, &black()).style, PaintStyle::Fill);
}

#[test]
fn draw_width_follows_mode_and_glyph() {
    let c = Cursor::new();
    assert_eq!(c.draw(true, false, &black()).width, CellFraction { num: 1, den: 5 });
    assert_eq!(c.draw(true, true, &black()).width, CellFraction { num: 1, den: 5 });
    assert_eq!(c.draw(false, false, &black()).width, CellFraction { num: 1, den: 1 });
    assert_eq!(c.draw(false, true, &black()).width, CellFraction { num: 2, den: 1 });
}

#[test]
fn cell_fraction_scales_a_width() {
    assert_eq!(CellFraction { num: 1, den: 5 }.of(10), 2);
    assert_eq!(CellFraction { num: 1, den: 5 }.of(9), 1);
    assert_eq!(CellFraction { num: 1, den: 5 }.of(8192), 1638);
    assert_eq!(CellFraction { num: 1, den: 1 }.of(8192), 8192);
    assert_eq!(CellFraction { num: 2, den: 1 }.of(8192), 16384);
    assert_eq!(CellFraction { num: 2, den: 1 }.of(u32::MAX), 8589934590);
    assert_eq!(CellFraction { num: u32::MAX, den: 1 }.of(u32::MAX), 18446744065119617025);
    assert_eq!(CellFraction { num: 3, den: 7 }.of(0), 0);
}

#[test]
fn draw_alpha_is_six_tenths_of_the_opacity() {
    let mut c = Cursor::new();
    c.start();
    let expected = [600_000u32, 600_000, 420_000, 240_000, 60_000, 0, 0, 180_000, 360_000, 540_000, 600_000];
    for alpha in expected {
        assert_eq!(c.draw(false, false, &black()).alpha, alpha);
        anim_step(&mut c.state);
    }
}

#[test]
fn draw_colour_stands_out_against_the_background() {
    let c = Cursor::new();
    assert_eq!(c.draw(false, false, &black()).color, Color { r: 255, g: 255, b: 255 });
    let bg = Color { r: 255, g: 16, b: 200 };
    assert_eq!(c.draw(false, false, &bg).color, Color { r: 0, g: 239, b: 55 });
    assert_eq!(bg.contrast(), Color { r: 0, g: 239, b: 55 });
    assert_eq!(bg.contrast().contrast(), bg);
}

#[test]
fn draw_changes_nothing() {
    let mut c = Cursor::new();
    c.start();
    anim_step(&mut c.state);
    anim_step(&mut c.state);
    let before = (c.state.phase(), c.state.level(), c.state.timer());
    let first = c.draw(true, false, &black());
    let second = c.draw(true, false, &black());
    assert_eq!(first, second);
    assert_eq!((c.state.phase(), c.state.level(), c.state.timer()), before);
}
