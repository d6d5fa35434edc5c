//! The decisions of the two loops: the interaction loop, which turns encoder
//! steps and button presses into a new selection, and the audio loop, which
//! turns received selections into settings of the bit-clock state machine.
use vstd::prelude::*;
use crate::button::ButtonEvent;
use crate::config::{decode_record, default_selection, erased_record, read_config, Selection};
use crate::divider::{divider_bits, tone_divider, ClockDivider};
use crate::encoder::EncoderDirection;
use crate::tones::{down_index, span_of, tone_table, up_index, ToneDial};

verus! {

/// An event that the interaction loop reacts to.
#[derive(Clone, Copy, Debug, PartialEq, Eq, Structural)]
pub enum ControlEvent {
    Step(EncoderDirection),
    Press(ButtonEvent),
}

/// The selection after `e`: a step moves the index over the dial, a short
/// press flips the enabled flag, a long press changes nothing.
pub open spec fn apply_event(sel: Selection, dial: ToneDial, e: ControlEvent) -> Selection {
    let span = span_of(dial.reserve_last);
    match e {
        ControlEvent::Step(EncoderDirection::Up) => Selection {
            frequency_index: up_index(sel.frequency_index as int, span) as usize,
            ..sel
        },
        ControlEvent::Step(EncoderDirection::Down) => Selection {
            frequency_index: down_index(sel.frequency_index as int, span) as usize,
            ..sel
        },
        ControlEvent::Press(ButtonEvent::Toggle) => Selection { enabled: !sel.enabled, ..sel },
        ControlEvent::Press(ButtonEvent::SaveAndPersist) => sel,
    }
}

/// The state of the interaction loop.
#[derive(Clone, Copy, Debug)]
pub struct Controller {
    pub selection: Selection,
    pub dial: ToneDial,
}

impl Controller {
    /// The selection names a tone of the table.
    pub open spec fn wf(&self) -> bool {
        self.selection.valid()
    }

    /// A controller that starts from `stored`.
    pub fn new(stored: Selection, dial: ToneDial) -> (r: Controller)
        requires
            stored.valid(),
        ensures
            r.wf(),
            r.selection == stored,
            r.dial == dial,
    {
        Controller { selection: stored, dial }
    }

    /// A controller that starts from the record found in flash at boot.
    pub fn boot(record: &[u8; 8], dial: ToneDial) -> (r: Controller)
        ensures
            r.wf(),
            r.selection == decode_record(record@),
            r.dial == dial,
    {
        Controller::new(read_config(record), dial)
    }

    /// The selection to publish to the audio loop.
    pub fn publish(&self) -> (r: Selection)
        ensures
            r == self.selection,
    {
        self.selection
    }

    /// Reacts to `event`; returns the selection to store in flash, which only
    /// a long press asks for.
    pub fn handle(&mut self, event: ControlEvent) -> (r: Option<Selection>)
        requires
            old(self).wf(),
        ensures
            final(self).wf(),
            final(self).dial == old(self).dial,
            final(self).selection == apply_event(old(self).selection, old(self).dial, event),
            r == if event == ControlEvent::Press(ButtonEvent::SaveAndPersist) {
                Some(old(self).selection)
            } else {
                None::<Selection>
            },
    {
        match event {
            ControlEvent::Step(EncoderDirection::Up) => {
                self.selection.frequency_index = self.dial.up(self.selection.frequency_index);
                None
            },
            ControlEvent::Step(EncoderDirection::Down) => {
                self.selection.frequency_index = self.dial.down(self.selection.frequency_index);
                None
            },
            ControlEvent::Press(ButtonEvent::Toggle) => {
                self.selection.enabled = !self.selection.enabled;
                None
            },
            ControlEvent::Press(ButtonEvent::SaveAndPersist) => Some(self.selection),
        }
    }
}

/// The settings of the bit-clock state machine.
#[derive(Clone, Copy, Debug, PartialEq, Eq, Structural)]
pub struct AudioConfig {
    pub divider: ClockDivider,
    pub enabled: bool,
}

/// The settings that play selection `sel`.
pub open spec fn audio_config_of(sel: Selection) -> AudioConfig {
    AudioConfig {
        divider: ClockDivider {
            bits: divider_bits(tone_table()[sel.frequency_index as int] as int) as u32,
        },
        enabled: sel.enabled,
    }
}

/// The settings that play selection `sel`.
pub fn audio_config(sel: Selection) -> (r: AudioConfig)
    requires
        sel.valid(),
    ensures
        r == audio_config_of(sel),
{
    AudioConfig { divider: tone_divider(sel.frequency_index), enabled: sel.enabled }
}

/// What ended the audio loop's wait.
#[derive(Clone, Copy, Debug, PartialEq, Eq, Structural)]
pub enum AudioEvent {
    /// A selection arrived from the interaction loop.
    Received(Selection),
    /// A full period of the bitstream has been pushed out.
    PushDone,
}

/// What the audio loop does next.
#[derive(Clone, Copy, Debug, PartialEq, Eq, Structural)]
pub enum AudioAction {
    /// Wait for the first selection; nothing is played before it.
    AwaitSelection,
    /// Stop the state machine, apply these settings, start it again if they
    /// enable it, and push the next period.
    Reconfigure(AudioConfig),
    /// Push the next period with the settings unchanged.
    Rearm,
}

/// The state of the audio loop: the settings in force, none before the first
/// selection.
#[derive(Clone, Copy, Debug)]
pub struct AudioDriver {
    pub config: Option<AudioConfig>,
}

impl AudioDriver {
    /// A driver that has received nothing yet.
    pub fn new() -> (r: AudioDriver)
        ensures
            r.config is None,
    {
        AudioDriver { config: None }
    }

    /// Reacts to `event`. A received selection always takes effect, at once;
    /// a finished push is followed by the next one once anything is playing.
    pub fn on_event(&mut self, event: AudioEvent) -> (r: AudioAction)
        requires
            event matches AudioEvent::Received(sel) ==> sel.valid(),
        ensures
            match event {
                AudioEvent::Received(sel) => {
                    &&& final(self).config == Some(audio_config_of(sel))
                    &&& r == AudioAction::Reconfigure(audio_config_of(sel))
                },
                AudioEvent::PushDone => {
                    &&& final(self).config == old(self).config
                    &&& r == if old(self).config is Some {
                        AudioAction::Rearm
                    } else {
                        AudioAction::AwaitSelection
                    }
                },
            },
    {
        match event {
            AudioEvent::Received(sel) => {
                let cfg = audio_config(sel);
                self.config = Some(cfg);
                AudioAction::Reconfigure(cfg)
            },
            AudioEvent::PushDone => {
                if self.config.is_some() {
                    AudioAction::Rearm
                } else {
                    AudioAction::AwaitSelection
                }
            },
        }
    }
}

/// A first boot, on blank flash, selects the first tone, enabled, and the
/// audio loop plays it with that tone's divider.
pub proof fn lemma_blank_flash_boot()
    ensures
        decode_record(erased_record()) == default_selection(),
        audio_config_of(decode_record(erased_record())) == (AudioConfig {
            divider: ClockDivider { bits: divider_bits(670) as u32 },
            enabled: true,
        }),
{
    let b = erased_record();
    assert(b[0] == 0xFF && b[1] == 0xFF && b[2] == 0xFF && b[3] == 0xFF);
}

} // verus!
