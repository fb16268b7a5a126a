//! The pulse that the indicator LED shows after each input: a colour whose
//! lit channels fade out linearly, tick by tick.

use vstd::prelude::*;

verus! {

/// How far the phase of a pulse falls with each tick.
pub const PHASE_STEP: u16 = 10;

/// One colour of the LED, eight bits per channel.
#[derive(Copy, Clone, Debug, PartialEq, Eq, Structural)]
pub struct Rgb {
    pub r: u8,
    pub g: u8,
    pub b: u8,
}

/// The level that `smart_leds::gamma` puts in place of a channel's linear
/// level.
pub uninterp spec fn gamma_level(level: u8) -> u8;

/// A colour with each channel gamma-corrected on its own.
pub open spec fn spec_gamma(color: Rgb) -> Rgb {
    Rgb { r: gamma_level(color.r), g: gamma_level(color.g), b: gamma_level(color.b) }
}

/// Gamma correction of one colour by `smart_leds::gamma`, which maps each
/// channel of each colour it is given through one fixed table of 256
/// levels. Trusted: the result is present, since one colour goes in, and
/// each of its channels is the corrected level of the same channel of
/// `color`.
#[verifier::external_body]
fn gamma_corrected(color: Rgb) -> (corrected: Option<Rgb>)
    ensures
        corrected == Some(
            (Rgb { r: gamma_level(color.r), g: gamma_level(color.g), b: gamma_level(color.b) }),
        ),
{
    let linear = smart_leds::RGB8 { r: color.r, g: color.g, b: color.b };
    smart_leds::gamma(core::iter::once(linear)).next().map(|c| Rgb { r: c.r, g: c.g, b: c.b })
}

/// The phase one tick later: lower by the step, and never below zero.
pub open spec fn spec_decayed_phase(phase: u16) -> u16 {
    if phase > PHASE_STEP {
        (phase - PHASE_STEP) as u16
    } else {
        0
    }
}

/// The level of a lit channel at a phase: the phase's high byte.
pub open spec fn spec_level(phase: u16) -> u8 {
    (phase / 256) as u8
}

/// A channel one tick later, at the phase of that tick: a dark channel
/// stays dark, a lit one takes the level of the phase.
pub open spec fn spec_decayed_channel(channel: u8, phase: u16) -> u8 {
    if channel != 0 {
        spec_level(phase)
    } else {
        0
    }
}

/// A colour one tick later, at the phase of that tick.
pub open spec fn spec_decayed_color(color: Rgb, phase: u16) -> Rgb {
    Rgb {
        r: spec_decayed_channel(color.r, phase),
        g: spec_decayed_channel(color.g, phase),
        b: spec_decayed_channel(color.b, phase),
    }
}

/// Colour and remaining intensity of the indicator's pulse.
#[derive(Copy, Clone, Debug)]
pub struct LEDIndicatorState {
    color: Rgb,
    phase: u16,
}

impl LEDIndicatorState {
    /// The colour the indicator holds.
    pub closed spec fn spec_color(self) -> Rgb {
        self.color
    }

    /// What is left of the pulse; zero when the indicator is at rest.
    pub closed spec fn spec_phase(self) -> u16 {
        self.phase
    }

    /// An indicator at rest: dark, with no pulse running.
    pub fn new() -> (indicator: LEDIndicatorState)
        ensures
            indicator.spec_color() == (Rgb { r: 0, g: 0, b: 0 }),
            indicator.spec_phase() == 0,
    {
        LEDIndicatorState { color: Rgb { r: 0, g: 0, b: 0 }, phase: 0 }
    }

    /// The colour the indicator holds.
    pub fn color(&self) -> (color: Rgb)
        ensures
            color == self.spec_color(),
    {
        self.color
    }

    /// What is left of the pulse; zero when the indicator is at rest.
    pub fn phase(&self) -> (phase: u16)
        ensures
            phase == self.spec_phase(),
    {
        self.phase
    }

    /// Starts a pulse of `color` whose intensity is `brightness`.
    pub fn pulse_color(&mut self, color: Rgb, brightness: u8)
        ensures
            final(self).spec_color() == color,
            final(self).spec_phase() == brightness * 256,
    {
        self.color = color;
        assert((brightness as u16) << 8 == brightness * 256) by (bit_vector);
        self.phase = (brightness as u16) << 8;
    }

    /// Advances a running pulse by one tick and returns the colour to send
    /// to the LED, gamma-corrected. An indicator at rest stays as it is and
    /// there is nothing to send.
    pub fn write_if_blinking(&mut self) -> (write: Option<Rgb>)
        ensures
            old(self).spec_phase() == 0 ==> *final(self) == *old(self) && write.is_none(),
            old(self).spec_phase() > 0 ==> {
                &&& final(self).spec_phase() == spec_decayed_phase(old(self).spec_phase())
                &&& final(self).spec_color() == spec_decayed_color(
                    old(self).spec_color(),
                    final(self).spec_phase(),
                )
                &&& write == Some(spec_gamma(final(self).spec_color()))
            },
            final(self).spec_phase() <= old(self).spec_phase(),
    {
        if self.phase > 0 {
            let phase: u16 = self.phase.saturating_sub(PHASE_STEP);
            assert(phase >> 8 == phase / 256) by (bit_vector);
            let level: u8 = (phase >> 8) as u8;
            self.phase = phase;
            if self.color.r != 0 {
                self.color.r = level;
            }
            if self.color.g != 0 {
                self.color.g = level;
            }
            if self.color.b != 0 {
                self.color.b = level;
            }
            match gamma_corrected(self.color) {
                Some(corrected) => Some(corrected),
                None => Some(self.color),
            }
        } else {
            None
        }
    }
}

/// The phase of a pulse `ticks` ticks after it stood at `phase`.
pub open spec fn spec_phase_after(phase: u16, ticks: nat) -> u16
    decreases ticks,
{
    if ticks == 0 {
        phase
    } else {
        spec_decayed_phase(spec_phase_after(phase, (ticks - 1) as nat))
    }
}

/// The number of ticks for which a pulse at `phase` still runs, and so the
/// number of colours it still sends to the LED: the phase divided by the
/// step, rounded up.
pub open spec fn spec_pulse_ticks(phase: u16) -> nat {
    ((phase + PHASE_STEP - 1) / (PHASE_STEP as int)) as nat
}

/// A pulse fades linearly, never rises, and ends after its phase divided by
/// the step, rounded up: after `ticks` ticks the phase is lower by `ticks`
/// steps, or zero where that would be below zero; one more tick never
/// raises it; it is above zero for as long as fewer ticks have passed than
/// the pulse runs, and zero from then on.
pub proof fn lemma_pulse_length(phase: u16, ticks: nat)
    ensures
        spec_phase_after(phase, ticks) == if phase > PHASE_STEP * ticks {
            phase - PHASE_STEP * ticks
        } else {
            0
        },
        spec_phase_after(phase, ticks + 1) <= spec_phase_after(phase, ticks),
        ticks < spec_pulse_ticks(phase) ==> spec_phase_after(phase, ticks) > 0,
        ticks >= spec_pulse_ticks(phase) ==> spec_phase_after(phase, ticks) == 0,
    decreases ticks,
{
    if ticks > 0 {
        lemma_pulse_length(phase, (ticks - 1) as nat);
    }
}

} // verus!
