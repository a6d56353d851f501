//! How the cursor is painted: colour, transparency, width and style.

use vstd::prelude::*;
use crate::phase::AnimPhase;

verus! {

/// Share of full opacity that a fully shown cursor is painted with, in thousandths.
pub const PAINT_ALPHA: u32 = 600;

/// A colour with eight bits for each of red, green and blue.
#[derive(Clone, Copy, Debug, PartialEq, Eq, Structural)]
pub struct Color {
    pub r: u8,
    pub g: u8,
    pub b: u8,
}

/// Whether the cursor's rectangle is filled or only outlined.
#[derive(Clone, Copy, Debug, PartialEq, Eq, Structural)]
pub enum PaintStyle {
    Fill,
    Stroke,
}

/// A width as a fraction of the width of one character cell.
#[derive(Clone, Copy, Debug, PartialEq, Eq, Structural)]
pub struct CellFraction {
    pub num: u32,
    pub den: u32,
}

/// All that the host needs to paint the cursor.
#[derive(Clone, Copy, Debug, PartialEq, Eq, Structural)]
pub struct Paint {
    /// Colour of the cursor.
    pub color: Color,
    /// Transparency of the colour in millionths: 0 is invisible, 1 000 000 solid.
    pub alpha: u32,
    /// Width of the rectangle, in cell widths.
    pub width: CellFraction,
    /// Fill or outline.
    pub style: PaintStyle,
}

/// The colour that stands out against `bg`: each channel turned to what it
/// lacks of full intensity.
pub open spec fn contrast(bg: Color) -> Color {
    Color { r: (255 - bg.r) as u8, g: (255 - bg.g) as u8, b: (255 - bg.b) as u8 }
}

/// Transparency, in millionths, that a cursor of opacity `level` is painted with.
pub open spec fn paint_alpha(level: nat) -> nat {
    (PAINT_ALPHA * level) as nat
}

/// Width of the cursor in cell widths: a fifth of a cell in insert mode,
/// whatever the glyph; else two cells over a double-width glyph, else one.
pub open spec fn cursor_width(insert_mode: bool, double_width: bool) -> CellFraction {
    if insert_mode {
        CellFraction { num: 1, den: 5 }
    } else if double_width {
        CellFraction { num: 2, den: 1 }
    } else {
        CellFraction { num: 1, den: 1 }
    }
}

/// An unfocused cursor is outlined, every other one filled.
pub open spec fn paint_style(phase: AnimPhase) -> PaintStyle {
    if phase == AnimPhase::NoFocus {
        PaintStyle::Stroke
    } else {
        PaintStyle::Fill
    }
}

/// How a cursor of opacity `level` in `phase` is painted over `bg`.
pub open spec fn paint_of(
    level: nat,
    phase: AnimPhase,
    insert_mode: bool,
    double_width: bool,
    bg: Color,
) -> Paint {
    Paint {
        color: contrast(bg),
        alpha: paint_alpha(level) as u32,
        width: cursor_width(insert_mode, double_width),
        style: paint_style(phase),
    }
}

impl Color {
    /// The colour that stands out against this one.
    pub fn contrast(&self) -> (color: Color)
        ensures
            color == contrast(*self),
    {
        Color { r: 255 - self.r, g: 255 - self.g, b: 255 - self.b }
    }
}

impl CellFraction {
    /// This fraction of `cell`, rounded down.
    pub open spec fn scaled(self, cell: nat) -> nat {
        ((cell * self.num) / (self.den as int)) as nat
    }

    /// The width in the host's units for a cell that is `cell` units wide,
    /// rounded down.
    pub fn of(&self, cell: u32) -> (width: u64)
        requires
            self.den > 0,
        ensures
            width == self.scaled(cell as nat),
    {
        proof {
            assert(cell * self.num <= 0xffff_ffff * 0xffff_ffff) by (nonlinear_arith)
                requires
                    cell <= 0xffff_ffff,
                    self.num <= 0xffff_ffff,
            ;
        }
        let scaled: u64 = (cell as u64) * (self.num as u64);
        scaled / (self.den as u64)
    }
}

/// In insert mode the cursor is a fifth of the cell wide, over a single and
/// over a double-width glyph alike; in every other mode it is as wide as the
/// cell, or twice as wide over a double-width glyph.
pub proof fn lemma_cursor_width(cell: nat, double_width: bool)
    ensures
        cursor_width(true, double_width).scaled(cell) == cell / 5,
        cursor_width(false, false).scaled(cell) == cell,
        cursor_width(false, true).scaled(cell) == 2 * cell,
{
}

} // verus!
