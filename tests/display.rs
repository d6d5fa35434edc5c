use subtone::config::Selection;
use subtone::display::{display_freq, readout, slot_origin, Glyph, MARKER_SLOT};

#[test]
fn readout_of_lowest_tone() {
    assert_eq!(
        readout(670, true),
        [Glyph::Space, Glyph::Digit(6), Glyph::Digit(7), Glyph::Dot, Glyph::Digit(0)]
    );
}

#[test]
fn readout_of_three_digit_tone() {
    assert_eq!(
        readout(2541, false),
        [Glyph::Digit(2), Glyph::Digit(5), Glyph::Digit(4), Glyph::Off, Glyph::Digit(1)]
    );
}

#[test]
fn readout_clamps_leading_digit() {
    assert_eq!(readout(12345, true)[0], Glyph::Digit(9));
}

#[test]
fn readout_of_selection() {
    let sel = Selection { frequency_index: 12, enabled: true };
    assert_eq!(
        display_freq(sel),
        [Glyph::Digit(1), Glyph::Digit(0), Glyph::Digit(0), Glyph::Dot, Glyph::Digit(0)]
    );
}

#[test]
fn font_positions() {
    assert_eq!(Glyph::Digit(7).font_index(), 7);
    assert_eq!(Glyph::Space.font_index(), 10);
    assert_eq!(Glyph::Dash.font_index(), 11);
    assert_eq!(Glyph::Dot.font_index(), 12);
    assert_eq!(Glyph::Off.font_index(), 13);
    assert_eq!(Glyph::Mem.font_index(), 14);
}

#[test]
fn cell_positions() {
    assert_eq!(slot_origin(0), (0, 8));
    assert_eq!(slot_origin(MARKER_SLOT), (75, 8));
    assert_eq!(slot_origin(4), (100, 8));
}
