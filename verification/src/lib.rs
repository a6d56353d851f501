//! Blinking text cursor: a timer-driven animation state machine.
//!
//! The cursor fades out, rests hidden, fades back in and rests shown, over
//! and over, until the editor loses input focus. The library holds the
//! decisions only: which phase comes next, how opaque the cursor is, what the
//! host's scheduler has to arm or cancel, and how the cursor is painted. The
//! host owns the event loop, the timers and the drawing surface.
//!
//! Opacity is kept in fixed point, in thousandths of full opacity.

pub mod alpha;
pub mod phase;
pub mod state;
pub mod paint;
pub mod cursor;
pub mod cycle;
pub mod scheduler;
