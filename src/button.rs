//! Classification of push-button presses into short and long presses.
//!
//! The button is active low. A press is a falling edge, followed by the
//! settle delay and then a race between the release of the button and the
//! hold timeout. A release that wins the race is a short press, which toggles
//! the output; a timeout that wins it is a long press, which saves the
//! selection. Either way a trailing settle delay ends the press.
use vstd::prelude::*;

verus! {

/// How long the button must stay held, after the settle delay, to count as a
/// long press, in milliseconds.
pub const HOLD_TIMEOUT_MS: u64 = 750;

/// What a press asks for.
#[derive(Clone, Copy, Debug, PartialEq, Eq, Structural)]
pub enum ButtonEvent {
    /// A short press: flip the enabled flag.
    Toggle,
    /// A long press: store the current selection.
    SaveAndPersist,
}

/// Where the classifier stands within a press.
#[derive(Clone, Copy, Debug, PartialEq, Eq, Structural)]
pub enum ButtonPhase {
    /// Waiting for a press.
    Idle,
    /// Pressed: waiting out the settle delay.
    Settling,
    /// Settled: racing the release against the hold timeout.
    Held,
    /// Classified: waiting out the trailing settle delay.
    Trailing,
}

/// What the classifier waits for next.
#[derive(Clone, Copy, Debug, PartialEq, Eq, Structural)]
pub enum ButtonWait {
    /// A falling edge of the line.
    Press,
    /// The settle delay.
    Settle,
    /// The release of the button, or the hold timeout, whichever comes first.
    ReleaseOrTimeout,
}

/// What the awaited condition turned out to be.
#[derive(Clone, Copy, Debug, PartialEq, Eq, Structural)]
pub enum ButtonInput {
    Pressed,
    SettleElapsed,
    Released,
    HoldTimeout,
}

/// The outcome of the race for a button released `held_ms` milliseconds
/// after the settle delay ended: a release at or after the timeout comes too
/// late, the timeout has already fired.
pub open spec fn hold_outcome(held_ms: int) -> ButtonInput {
    if held_ms < HOLD_TIMEOUT_MS {
        ButtonInput::Released
    } else {
        ButtonInput::HoldTimeout
    }
}

/// The phase after input `i` in phase `p`; an input that phase `p` does not
/// wait for leaves it unchanged.
pub open spec fn next_button_phase(p: ButtonPhase, i: ButtonInput) -> ButtonPhase {
    match (p, i) {
        (ButtonPhase::Idle, ButtonInput::Pressed) => ButtonPhase::Settling,
        (ButtonPhase::Settling, ButtonInput::SettleElapsed) => ButtonPhase::Held,
        (ButtonPhase::Held, ButtonInput::Released) => ButtonPhase::Trailing,
        (ButtonPhase::Held, ButtonInput::HoldTimeout) => ButtonPhase::Trailing,
        (ButtonPhase::Trailing, ButtonInput::SettleElapsed) => ButtonPhase::Idle,
        _ => p,
    }
}

/// The event that input `i` in phase `p` classifies, if any.
pub open spec fn button_output(p: ButtonPhase, i: ButtonInput) -> Option<ButtonEvent> {
    match (p, i) {
        (ButtonPhase::Held, ButtonInput::Released) => Some(ButtonEvent::Toggle),
        (ButtonPhase::Held, ButtonInput::HoldTimeout) => Some(ButtonEvent::SaveAndPersist),
        _ => None,
    }
}

/// The condition awaited in phase `p`.
pub open spec fn button_awaited(p: ButtonPhase) -> ButtonWait {
    match p {
        ButtonPhase::Idle => ButtonWait::Press,
        ButtonPhase::Settling => ButtonWait::Settle,
        ButtonPhase::Held => ButtonWait::ReleaseOrTimeout,
        ButtonPhase::Trailing => ButtonWait::Settle,
    }
}

/// The outcome of the hold race for a release `held_ms` milliseconds after
/// the settle delay ended.
pub fn classify_hold(held_ms: u64) -> (r: ButtonInput)
    ensures
        r == hold_outcome(held_ms as int),
{
    if held_ms < HOLD_TIMEOUT_MS {
        ButtonInput::Released
    } else {
        ButtonInput::HoldTimeout
    }
}

/// The classifier of one push button.
#[derive(Clone, Copy, Debug)]
pub struct ButtonClassifier {
    pub phase: ButtonPhase,
}

impl ButtonClassifier {
    /// A classifier waiting for a press.
    pub fn new() -> (r: ButtonClassifier)
        ensures
            r.phase == ButtonPhase::Idle,
    {
        ButtonClassifier { phase: ButtonPhase::Idle }
    }

    /// The condition to wait for next.
    pub fn wait_for(&self) -> (r: ButtonWait)
        ensures
            r == button_awaited(self.phase),
    {
        match self.phase {
            ButtonPhase::Idle => ButtonWait::Press,
            ButtonPhase::Settling => ButtonWait::Settle,
            ButtonPhase::Held => ButtonWait::ReleaseOrTimeout,
            ButtonPhase::Trailing => ButtonWait::Settle,
        }
    }

    /// Takes what the awaited condition turned out to be; returns the event
    /// that it classifies.
    pub fn step(&mut self, input: ButtonInput) -> (r: Option<ButtonEvent>)
        ensures
            final(self).phase == next_button_phase(old(self).phase, input),
            r == button_output(old(self).phase, input),
    {
        let (next, out) = match (self.phase, input) {
            (ButtonPhase::Idle, ButtonInput::Pressed) => (ButtonPhase::Settling, None),
            (ButtonPhase::Settling, ButtonInput::SettleElapsed) => (ButtonPhase::Held, None),
            (ButtonPhase::Held, ButtonInput::Released) => (
                ButtonPhase::Trailing,
                Some(ButtonEvent::Toggle),
            ),
            (ButtonPhase::Held, ButtonInput::HoldTimeout) => (
                ButtonPhase::Trailing,
                Some(ButtonEvent::SaveAndPersist),
            ),
            (ButtonPhase::Trailing, ButtonInput::SettleElapsed) => (ButtonPhase::Idle, None),
            (p, _) => (p, None),
        };
        self.phase = next;
        out
    }
}

/// The hold timeout is the one tie-break: a settled press released strictly
/// before it is a toggle, one still held when it elapses (a release at the
/// timeout itself included) saves the selection.
pub proof fn lemma_hold_boundary(held_ms: int)
    ensures
        button_output(ButtonPhase::Held, hold_outcome(held_ms)) == Some(
            if held_ms < HOLD_TIMEOUT_MS {
                ButtonEvent::Toggle
            } else {
                ButtonEvent::SaveAndPersist
            },
        ),
        button_output(ButtonPhase::Held, hold_outcome(HOLD_TIMEOUT_MS as int)) == Some(
            ButtonEvent::SaveAndPersist,
        ),
        button_output(ButtonPhase::Held, hold_outcome(HOLD_TIMEOUT_MS - 1)) == Some(
            ButtonEvent::Toggle,
        ),
{
}

/// A press classifies exactly one event: falling edge, settle delay and race
/// lead to the event, and the trailing settle delay back to idle.
pub proof fn lemma_press_cycle(held_ms: int)
    ensures
        ({
            let settling = next_button_phase(ButtonPhase::Idle, ButtonInput::Pressed);
            let held = next_button_phase(settling, ButtonInput::SettleElapsed);
            let trailing = next_button_phase(held, hold_outcome(held_ms));
            &&& button_output(ButtonPhase::Idle, ButtonInput::Pressed) is None
            &&& button_output(settling, ButtonInput::SettleElapsed) is None
            &&& button_output(held, hold_outcome(held_ms)) is Some
            &&& button_output(trailing, ButtonInput::SettleElapsed) is None
            &&& next_button_phase(trailing, ButtonInput::SettleElapsed) == ButtonPhase::Idle
        }),
{
}

} // verus!
