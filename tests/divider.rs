use subtone::divider::{freq_to_divider, tone_divider, DIVIDER_ONE};
use subtone::tones::TONE_COUNT;

#[test]
fn divider_of_lowest_tone() {
    // 125 MHz / 4 / 16384 / 67.0 Hz = 28.468..., truncated to 8 fractional bits
    assert_eq!(freq_to_divider(670).bits, 7287);
    assert_eq!(tone_divider(0).bits, 7287);
}

#[test]
fn divider_of_highest_tone() {
    assert_eq!(freq_to_divider(2541).bits, 1921);
    assert_eq!(tone_divider(50).bits, 1921);
}

#[test]
fn divider_of_hundred_hertz() {
    assert_eq!(freq_to_divider(1000).bits, 4882);
    assert_eq!(freq_to_divider(1000).bits as u64 / DIVIDER_ONE, 19);
}

#[test]
fn divider_of_smallest_frequency() {
    assert_eq!(freq_to_divider(1).bits, 4882812);
}

#[test]
fn divider_decreases_over_table() {
    for i in 1..TONE_COUNT {
        assert!(tone_divider(i - 1).bits > tone_divider(i).bits);
    }
}

#[test]
fn divider_decreases_with_frequency() {
    assert!(freq_to_divider(500).bits > freq_to_divider(501).bits);
    assert!(freq_to_divider(670).bits > freq_to_divider(693).bits);
}
