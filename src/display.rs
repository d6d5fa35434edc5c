//! The frequency readout: which glyph stands in each of the five character
//! cells of the display.
use vstd::prelude::*;
use crate::config::Selection;
use crate::tones::{tone_table, tone_tenths};

verus! {

/// Character cells on the display.
pub const SLOTS: usize = 5;

/// The cell that shows the decimal point, or the off marker, or the save
/// acknowledgment.
pub const MARKER_SLOT: usize = 3;

/// Horizontal distance between the origins of neighbouring cells, in pixels.
pub const SLOT_PITCH: i32 = 25;

/// Top edge of the cells, in pixels.
pub const SLOT_TOP: i32 = 8;

/// A glyph of the display font.
#[derive(Clone, Copy, Debug, PartialEq, Eq, Structural)]
pub enum Glyph {
    /// A decimal digit, 0 to 9.
    Digit(u8),
    Space,
    Dash,
    Dot,
    /// The marker of a disabled output.
    Off,
    /// The acknowledgment of a save.
    Mem,
}

/// The position of `g` in the font: the digits first, then space, dash,
/// dot, off and mem.
pub open spec fn font_position(g: Glyph) -> int {
    match g {
        Glyph::Digit(d) => d as int,
        Glyph::Space => 10,
        Glyph::Dash => 11,
        Glyph::Dot => 12,
        Glyph::Off => 13,
        Glyph::Mem => 14,
    }
}

/// A digit glyph, the value clamped to 9.
pub open spec fn digit(v: int) -> Glyph {
    Glyph::Digit(if v > 9 { 9u8 } else { v as u8 })
}

/// The readout of a frequency of `tenths` tenths of a hertz, `DDD.D` with a
/// blank leading zero, the point replaced by the off marker when the output
/// is disabled.
pub open spec fn readout_of(tenths: int, enabled: bool) -> Seq<Glyph> {
    seq![
        if tenths / 1000 == 0 { Glyph::Space } else { digit(tenths / 1000) },
        digit(tenths % 1000 / 100),
        digit(tenths % 100 / 10),
        if enabled { Glyph::Dot } else { Glyph::Off },
        digit(tenths % 10),
    ]
}

impl Glyph {
    /// The position of the glyph in the font.
    pub fn font_index(&self) -> (r: usize)
        requires
            *self matches Glyph::Digit(d) ==> d <= 9,
        ensures
            r == font_position(*self),
            r < 15,
    {
        match *self {
            Glyph::Digit(d) => d as usize,
            Glyph::Space => 10,
            Glyph::Dash => 11,
            Glyph::Dot => 12,
            Glyph::Off => 13,
            Glyph::Mem => 14,
        }
    }
}

/// The top-left corner of cell `slot`, in pixels.
pub fn slot_origin(slot: usize) -> (r: (i32, i32))
    requires
        slot < SLOTS,
    ensures
        r.0 == SLOT_PITCH * slot,
        r.1 == SLOT_TOP,
{
    (SLOT_PITCH * slot as i32, SLOT_TOP)
}

fn digit_glyph(v: u32) -> (r: Glyph)
    ensures
        r == digit(v as int),
{
    if v > 9 {
        Glyph::Digit(9)
    } else {
        Glyph::Digit(v as u8)
    }
}

/// The glyphs of the readout of `tenths` tenths of a hertz, cell by cell.
pub fn readout(tenths: u32, enabled: bool) -> (r: [Glyph; 5])
    ensures
        r@ == readout_of(tenths as int, enabled),
{
    let lead = tenths / 1000;
    let r: [Glyph; 5] = [
        if lead == 0 {
            Glyph::Space
        } else {
            digit_glyph(lead)
        },
        digit_glyph(tenths % 1000 / 100),
        digit_glyph(tenths % 100 / 10),
        if enabled {
            Glyph::Dot
        } else {
            Glyph::Off
        },
        digit_glyph(tenths % 10),
    ];
    assert(r@ =~= readout_of(tenths as int, enabled));
    r
}

/// The readout of a selection: its tone and its enabled flag.
pub fn display_freq(sel: Selection) -> (r: [Glyph; 5])
    requires
        sel.valid(),
    ensures
        r@ == readout_of(tone_table()[sel.frequency_index as int] as int, sel.enabled),
{
    readout(tone_tenths(sel.frequency_index), sel.enabled)
}

} // verus!
