//! One tick of the device's main loop: sample the encoder and the buttons,
//! settle on the tick's event, and say what to send to the host and to the
//! LED. The loop itself, the pins, the USB link and the LED strip belong to
//! the firmware around this library.

use vstd::prelude::*;
use crate::control::ControlState;
use crate::encoder::{RotaryEncoder, rotation_delta};
use crate::encoder::{
    lemma_delta_is_decoded_step,
    spec_history_action,
    spec_next_count,
    spec_next_history,
};
use crate::hid::{Key, KeyboardReport, spec_report_to_send};
use crate::input::{ButtonLevels, InputEvent, arbitrate, spec_arbitrate};
use crate::led::{LEDIndicatorState, Rgb};
use crate::led::{spec_decayed_color, spec_decayed_phase, spec_gamma};

verus! {

/// How long the loop pauses after a tick in which a key was down, in
/// milliseconds.
pub const KEY_DELAY_MS: u32 = 10;

/// The pin levels read in one tick; `true` is high.
#[derive(Copy, Clone, Debug, PartialEq, Eq, Structural)]
pub struct PinSample {
    pub encoder_cw: bool,
    pub encoder_ccw: bool,
    pub buttons: ButtonLevels,
}

/// What the firmware has to do after one tick.
#[derive(Copy, Clone, Debug, PartialEq, Eq, Structural)]
pub struct TickActions {
    /// The event the tick's inputs amount to.
    pub event: InputEvent,
    /// The keyboard report to send to the host: present only where it
    /// differs from the one sent last, and then the key that is down, or
    /// none when the key has gone up.
    pub report: Option<Option<Key>>,
    /// The colour to send to the LED, present while a pulse runs.
    pub led_write: Option<Rgb>,
    /// How long to pause before the next tick, in milliseconds.
    pub delay_ms: u32,
}

/// Colour and phase of the indicator after a tick with `event`, given its
/// colour and phase before and the brightness in force: an event other
/// than `Idle` starts a pulse of its colour at the brightness, and then a
/// running pulse fades by one step.
pub open spec fn spec_led_after_tick(
    color: Rgb,
    phase: u16,
    event: InputEvent,
    brightness: u8,
) -> (Rgb, u16) {
    let (pulsed_color, pulsed_phase) = match event.spec_color() {
        Some(event_color) => (event_color, (brightness * 256) as u16),
        None => (color, phase),
    };
    if pulsed_phase > 0 {
        let faded = spec_decayed_phase(pulsed_phase);
        (spec_decayed_color(pulsed_color, faded), faded)
    } else {
        (pulsed_color, pulsed_phase)
    }
}

/// The colour sent to the LED in a tick with `event`: the indicator's
/// colour after the tick, gamma-corrected, where a pulse was running or
/// began in this tick; nothing where the indicator was at rest.
pub open spec fn spec_led_write(color: Rgb, phase: u16, event: InputEvent, brightness: u8)
    -> Option<Rgb> {
    let pulsed_phase = match event.spec_color() {
        Some(_) => (brightness * 256) as u16,
        None => phase,
    };
    if pulsed_phase > 0 {
        Some(spec_gamma(spec_led_after_tick(color, phase, event, brightness).0))
    } else {
        None
    }
}

/// The state that the main loop carries from tick to tick.
#[derive(Copy, Clone, Debug)]
pub struct ControlLoop {
    encoder: RotaryEncoder,
    current_encoder_count: i32,
    led_indicator: LEDIndicatorState,
    keyboard: KeyboardReport,
}

impl ControlLoop {
    #[verifier::type_invariant]
    spec fn well_formed(self) -> bool {
        self.current_encoder_count == self.encoder.spec_count()
    }

    /// The encoder's decoder.
    pub closed spec fn spec_encoder(self) -> RotaryEncoder {
        self.encoder
    }

    /// The indicator LED's pulse.
    pub closed spec fn spec_led_indicator(self) -> LEDIndicatorState {
        self.led_indicator
    }

    /// The keyboard interface's report.
    pub closed spec fn spec_keyboard(self) -> KeyboardReport {
        self.keyboard
    }

    /// The loop's state at power-up: the encoder at rest with a count of
    /// zero, the indicator dark, no key down.
    pub fn new() -> (state: ControlLoop)
        ensures
            state.spec_encoder().spec_history() == 0,
            state.spec_encoder().spec_count() == 0,
            state.spec_led_indicator().spec_phase() == 0,
            state.spec_led_indicator().spec_color() == (Rgb { r: 0, g: 0, b: 0 }),
            state.spec_keyboard().spec_pending().is_none(),
            state.spec_keyboard().spec_transmitted().is_none(),
    {
        ControlLoop {
            encoder: RotaryEncoder::new(),
            current_encoder_count: 0,
            led_indicator: LEDIndicatorState::new(),
            keyboard: KeyboardReport::new(),
        }
    }

    /// Runs one tick on the pin levels `pins`, with `control_state` as the
    /// snapshot of the shared settings taken for this tick.
    pub fn tick(&mut self, pins: &PinSample, control_state: &ControlState) -> (actions:
        TickActions)
        ensures
            final(self).spec_encoder().spec_history() == spec_next_history(
                old(self).spec_encoder().spec_history(),
                pins.encoder_cw,
                pins.encoder_ccw,
            ),
            final(self).spec_encoder().spec_count() == spec_next_count(
                old(self).spec_encoder().spec_count(),
                old(self).spec_encoder().spec_history(),
                pins.encoder_cw,
                pins.encoder_ccw,
            ),
            actions.event == spec_arbitrate(
                spec_history_action(final(self).spec_encoder().spec_history()).spec_step() as i32,
                pins.buttons,
            ),
            actions.report == spec_report_to_send(
                old(self).spec_keyboard().spec_transmitted(),
                actions.event.spec_key(),
            ),
            final(self).spec_keyboard().spec_pending() == actions.event.spec_key(),
            final(self).spec_keyboard().spec_transmitted() == actions.event.spec_key(),
            final(self).spec_led_indicator().spec_color() == spec_led_after_tick(
                old(self).spec_led_indicator().spec_color(),
                old(self).spec_led_indicator().spec_phase(),
                actions.event,
                control_state.spec_led_brightness(),
            ).0,
            final(self).spec_led_indicator().spec_phase() == spec_led_after_tick(
                old(self).spec_led_indicator().spec_color(),
                old(self).spec_led_indicator().spec_phase(),
                actions.event,
                control_state.spec_led_brightness(),
            ).1,
            actions.led_write == spec_led_write(
                old(self).spec_led_indicator().spec_color(),
                old(self).spec_led_indicator().spec_phase(),
                actions.event,
                control_state.spec_led_brightness(),
            ),
            actions.delay_ms == if actions.event == InputEvent::Idle {
                0
            } else {
                KEY_DELAY_MS
            },
    {
        proof {
            use_type_invariant(&*self);
            lemma_delta_is_decoded_step(
                self.encoder.spec_count(),
                self.encoder.spec_history(),
                pins.encoder_cw,
                pins.encoder_ccw,
            );
        }
        let mut encoder = self.encoder;
        let encoder_sample = encoder.read_count(pins.encoder_cw, pins.encoder_ccw);
        let encoder_diff = rotation_delta(self.current_encoder_count, encoder_sample);
        let event = arbitrate(encoder_diff, &pins.buttons);

        let mut led_indicator = self.led_indicator;
        match event.color() {
            Some(color) => led_indicator.pulse_color(color, control_state.get_led_brightness()),
            None => {},
        }
        let key = event.key();
        let mut keyboard = self.keyboard;
        let report = keyboard.update(key);
        let led_write = led_indicator.write_if_blinking();
        let delay_ms = if key.is_some() {
            KEY_DELAY_MS
        } else {
            0
        };
        *self = ControlLoop {
            encoder,
            current_encoder_count: encoder_sample,
            led_indicator,
            keyboard,
        };
        TickActions { event, report, led_write, delay_ms }
    }
}

} // verus!
