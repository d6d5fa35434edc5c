use subtone::button::{
    classify_hold, ButtonClassifier, ButtonEvent, ButtonInput, ButtonPhase, ButtonWait,
    HOLD_TIMEOUT_MS,
};

fn press(held_ms: u64) -> Vec<Option<ButtonEvent>> {
    let mut c = ButtonClassifier::new();
    let out = vec![
        c.step(ButtonInput::Pressed),
        c.step(ButtonInput::SettleElapsed),
        c.step(classify_hold(held_ms)),
        c.step(ButtonInput::SettleElapsed),
    ];
    assert_eq!(c.phase, ButtonPhase::Idle);
    out
}

#[test]
fn short_press_toggles() {
    assert_eq!(press(300), vec![None, None, Some(ButtonEvent::Toggle), None]);
}

#[test]
fn long_press_saves() {
    assert_eq!(press(1000), vec![None, None, Some(ButtonEvent::SaveAndPersist), None]);
}

#[test]
fn release_at_timeout_saves() {
    assert_eq!(HOLD_TIMEOUT_MS, 750);
    assert_eq!(classify_hold(749), ButtonInput::Released);
    assert_eq!(classify_hold(750), ButtonInput::HoldTimeout);
    assert_eq!(press(749)[2], Some(ButtonEvent::Toggle));
    assert_eq!(press(750)[2], Some(ButtonEvent::SaveAndPersist));
}

#[test]
fn unexpected_inputs_are_ignored() {
    let mut c = ButtonClassifier::new();
    assert_eq!(c.step(ButtonInput::Released), None);
    assert_eq!(c.step(ButtonInput::HoldTimeout), None);
    assert_eq!(c.phase, ButtonPhase::Idle);
    c.step(ButtonInput::Pressed);
    assert_eq!(c.step(ButtonInput::Released), None);
    assert_eq!(c.phase, ButtonPhase::Settling);
}

#[test]
fn waits_follow_the_press() {
    let mut c = ButtonClassifier::new();
    assert_eq!(c.wait_for(), ButtonWait::Press);
    c.step(ButtonInput::Pressed);
    assert_eq!(c.wait_for(), ButtonWait::Settle);
    c.step(ButtonInput::SettleElapsed);
    assert_eq!(c.wait_for(), ButtonWait::ReleaseOrTimeout);
    c.step(ButtonInput::HoldTimeout);
    assert_eq!(c.wait_for(), ButtonWait::Settle);
}
