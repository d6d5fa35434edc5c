use subtone::button::{ButtonEvent, ButtonClassifier, ButtonInput, classify_hold};
use subtone::config::{read_config, write_config, Selection};
use subtone::controller::{
    audio_config, AudioAction, AudioConfig, AudioDriver, AudioEvent, ControlEvent, Controller,
};
use subtone::divider::{freq_to_divider, ClockDivider};
use subtone::encoder::EncoderDirection;
use subtone::tones::ToneDial;

fn selection_of(frequency_index: usize, enabled: bool) -> Selection {
    Selection { frequency_index, enabled }
}

fn program_record(flash: &mut [u8; 8], data: &[u8; 8]) {
    for i in 0..8 {
        flash[i] = 0xFF & data[i];
    }
}

#[test]
fn blank_flash_boot_plays_first_tone() {
    let flash = [0xFF; 8];
    assert_eq!(read_config(&flash), selection_of(0, true));
    let ctl = Controller::boot(&flash, ToneDial::new(false));
    let published = ctl.publish();
    assert_eq!(published, selection_of(0, true));
    let mut audio = AudioDriver::new();
    assert_eq!(audio.on_event(AudioEvent::PushDone), AudioAction::AwaitSelection);
    let expected = AudioConfig { divider: freq_to_divider(670), enabled: true };
    assert_eq!(expected.divider, ClockDivider { bits: 7287 });
    assert_eq!(audio.on_event(AudioEvent::Received(published)), AudioAction::Reconfigure(expected));
    assert_eq!(audio.on_event(AudioEvent::PushDone), AudioAction::Rearm);
    assert_eq!(audio.config, Some(expected));
}

#[test]
fn five_ups_then_full_turn() {
    let mut ctl = Controller::new(selection_of(0, true), ToneDial::new(false));
    for _ in 0..5 {
        assert_eq!(ctl.handle(ControlEvent::Step(EncoderDirection::Up)), None);
    }
    assert_eq!(ctl.publish().frequency_index, 5);
    let mut ctl = Controller::new(selection_of(0, true), ToneDial::new(false));
    for _ in 0..51 {
        ctl.handle(ControlEvent::Step(EncoderDirection::Up));
    }
    assert_eq!(ctl.publish().frequency_index, 0);
}

#[test]
fn down_from_zero_wraps() {
    let mut ctl = Controller::new(selection_of(0, false), ToneDial::new(false));
    ctl.handle(ControlEvent::Step(EncoderDirection::Down));
    assert_eq!(ctl.publish(), selection_of(50, false));
    let mut reserved = Controller::new(selection_of(0, false), ToneDial::new(true));
    reserved.handle(ControlEvent::Step(EncoderDirection::Down));
    assert_eq!(reserved.publish(), selection_of(49, false));
}

fn press_event(held_ms: u64) -> ButtonEvent {
    let mut c = ButtonClassifier::new();
    c.step(ButtonInput::Pressed);
    c.step(ButtonInput::SettleElapsed);
    let event = c.step(classify_hold(held_ms)).unwrap();
    c.step(ButtonInput::SettleElapsed);
    event
}

#[test]
fn short_press_toggles_without_flash() {
    let mut flash = [0xFF; 8];
    program_record(&mut flash, &[4, 0, 0, 0, 1, 0, 0, 0]);
    let before = flash;
    let mut ctl = Controller::boot(&flash, ToneDial::new(false));
    assert_eq!(ctl.publish(), selection_of(4, true));
    let persist = ctl.handle(ControlEvent::Press(press_event(300)));
    assert_eq!(persist, None);
    assert_eq!(ctl.publish(), selection_of(4, false));
    assert_eq!(flash, before);
}

#[test]
fn long_press_stores_selection() {
    let mut flash = [0xFF; 8];
    let mut ctl = Controller::boot(&flash, ToneDial::new(false));
    ctl.handle(ControlEvent::Step(EncoderDirection::Up));
    ctl.handle(ControlEvent::Step(EncoderDirection::Up));
    ctl.handle(ControlEvent::Press(ButtonEvent::Toggle));
    let persist = ctl.handle(ControlEvent::Press(press_event(800)));
    assert_eq!(persist, Some(selection_of(2, false)));
    assert_eq!(ctl.publish(), selection_of(2, false));
    let data = write_config(&flash, persist.unwrap()).unwrap();
    program_record(&mut flash, &data);
    assert_eq!(read_config(&flash), selection_of(2, false));
    let rebooted = Controller::boot(&flash, ToneDial::new(false));
    assert_eq!(rebooted.publish(), selection_of(2, false));
}

#[test]
fn new_selection_reconfigures() {
    let mut audio = AudioDriver::new();
    audio.on_event(AudioEvent::Received(selection_of(0, true)));
    let action = audio.on_event(AudioEvent::Received(selection_of(50, false)));
    let expected = AudioConfig { divider: ClockDivider { bits: 1921 }, enabled: false };
    assert_eq!(action, AudioAction::Reconfigure(expected));
    assert_eq!(audio_config(selection_of(50, false)), expected);
    assert_eq!(audio.on_event(AudioEvent::PushDone), AudioAction::Rearm);
}
