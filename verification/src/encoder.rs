//! Quadrature decoding of a two-pin rotary encoder.
//!
//! The two pins of the encoder pass through the states `00`, `10`, `11`,
//! `01` and back to `00` when the shaft turns clockwise, and through the
//! same cycle in reverse when it turns the other way. The decoder keeps the
//! previous and the current pin state in a four-bit history and reads the
//! direction of each sample from a table indexed by that history.

use vstd::prelude::*;
use vstd::wrapping::i32_specs;

verus! {

/// Direction of one decoded encoder transition.
#[derive(Copy, Clone, Debug, PartialEq, Eq, Structural)]
pub enum RotationAction {
    Still,
    Clockwise,
    CounterClockwise,
}

impl RotationAction {
    /// The signed tick this direction contributes to the rotation count.
    pub open spec fn spec_step(self) -> int {
        match self {
            RotationAction::Still => 0,
            RotationAction::Clockwise => 1,
            RotationAction::CounterClockwise => -1,
        }
    }

    /// The signed tick this direction contributes to the rotation count.
    pub fn step(&self) -> (step: i32)
        ensures
            step == self.spec_step(),
    {
        match self {
            RotationAction::Still => 0,
            RotationAction::Clockwise => 1,
            RotationAction::CounterClockwise => -1,
        }
    }
}

/// Direction for each four-bit history: the previous pin state in the high
/// two bits, the current one in the low two bits.
pub const ENCODER_ACTIONS: [RotationAction; 16] = [
    RotationAction::Still,
    RotationAction::CounterClockwise,
    RotationAction::Clockwise,
    RotationAction::Still,
    RotationAction::Clockwise,
    RotationAction::Still,
    RotationAction::Still,
    RotationAction::CounterClockwise,
    RotationAction::CounterClockwise,
    RotationAction::Still,
    RotationAction::Still,
    RotationAction::Clockwise,
    RotationAction::Still,
    RotationAction::Clockwise,
    RotationAction::CounterClockwise,
    RotationAction::Still,
];

/// The level to take for a pin whose reading may have failed: a reading
/// that did not come about counts as low.
pub fn level_or_low(reading: Option<bool>) -> (high: bool)
    ensures
        high == (reading == Some(true)),
{
    match reading {
        Some(level) => level,
        None => false,
    }
}

/// The two-bit pin state of one sample: the clockwise pin in the high bit,
/// the counter-clockwise pin in the low bit.
pub open spec fn spec_sample_bits(cw_pin_high: bool, ccw_pin_high: bool) -> int {
    (if cw_pin_high { 2int } else { 0int }) + (if ccw_pin_high { 1int } else { 0int })
}

/// The pin state that follows `pins` when the shaft turns one step
/// clockwise.
pub open spec fn spec_clockwise_successor(pins: int) -> int {
    if pins == 0 {
        2
    } else if pins == 2 {
        3
    } else if pins == 3 {
        1
    } else {
        0
    }
}

/// The direction in which the shaft moved between two pin states: one step
/// along the cycle either way counts; no change, and a jump of two steps,
/// which a missed sample leaves behind, count as no movement.
pub open spec fn spec_direction(previous: int, current: int) -> RotationAction {
    if current == spec_clockwise_successor(previous) {
        RotationAction::Clockwise
    } else if previous == spec_clockwise_successor(current) {
        RotationAction::CounterClockwise
    } else {
        RotationAction::Still
    }
}

/// The direction that a four-bit history stands for.
pub open spec fn spec_history_action(history: int) -> RotationAction {
    spec_direction(history / 4, history % 4)
}

/// The history after one more sample: the current pin state becomes the
/// previous one, and the sample becomes the current one.
pub open spec fn spec_next_history(history: int, cw_pin_high: bool, ccw_pin_high: bool) -> int {
    (history % 4) * 4 + spec_sample_bits(cw_pin_high, ccw_pin_high)
}

/// The rotation count after one more sample. The count is a 32-bit signed
/// number and wraps around at its limits.
pub open spec fn spec_next_count(
    count: i32,
    history: int,
    cw_pin_high: bool,
    ccw_pin_high: bool,
) -> i32 {
    i32_specs::wrapping_add(
        count,
        spec_history_action(spec_next_history(history, cw_pin_high, ccw_pin_high)).spec_step()
            as i32,
    )
}

/// The change of the rotation count between two readings, across a wrap of
/// the count too.
pub open spec fn spec_rotation_delta(previous: i32, current: i32) -> i32 {
    i32_specs::wrapping_sub(current, previous)
}

/// The change of the rotation count between two readings.
pub fn rotation_delta(previous: i32, current: i32) -> (delta: i32)
    ensures
        delta == spec_rotation_delta(previous, current),
{
    current.wrapping_sub(previous)
}

/// Decoder state of one rotary encoder.
#[derive(Copy, Clone, Debug)]
pub struct RotaryEncoder {
    /// The four-bit history of pin states.
    rotation_state: u8,
    /// The rotation count of the encoder.
    count: i32,
}

impl RotaryEncoder {
    #[verifier::type_invariant]
    spec fn well_formed(self) -> bool {
        self.rotation_state < 16
    }

    /// The four-bit history of pin states, from 0 to 15.
    pub closed spec fn spec_history(self) -> int {
        self.rotation_state as int
    }

    /// The rotation count.
    pub closed spec fn spec_count(self) -> i32 {
        self.count
    }

    /// A decoder at rest: both pins taken as low, the count at zero.
    pub fn new() -> (encoder: RotaryEncoder)
        ensures
            encoder.spec_history() == 0,
            encoder.spec_count() == 0,
    {
        RotaryEncoder { rotation_state: 0, count: 0 }
    }

    /// The rotation count as it stands, without taking a sample.
    pub fn count(&self) -> (count: i32)
        ensures
            count == self.spec_count(),
    {
        self.count
    }

    /// Takes one sample of the two pins and returns the updated count.
    pub fn read_count(&mut self, cw_pin_high: bool, ccw_pin_high: bool) -> (count: i32)
        ensures
            0 <= final(self).spec_history() < 16,
            final(self).spec_history() == spec_next_history(
                old(self).spec_history(),
                cw_pin_high,
                ccw_pin_high,
            ),
            final(self).spec_count() == spec_next_count(
                old(self).spec_count(),
                old(self).spec_history(),
                cw_pin_high,
                ccw_pin_high,
            ),
            count == final(self).spec_count(),
    {
        let action = self.rotation_action(cw_pin_high, ccw_pin_high);
        self.count = self.count.wrapping_add(action.step());
        self.count
    }

    /// Takes one sample of the two pins into the history and returns the
    /// direction that the history now stands for. The count is left alone.
    pub fn rotation_action(&mut self, cw_pin_high: bool, ccw_pin_high: bool) -> (action:
        RotationAction)
        ensures
            0 <= final(self).spec_history() < 16,
            final(self).spec_history() == spec_next_history(
                old(self).spec_history(),
                cw_pin_high,
                ccw_pin_high,
            ),
            final(self).spec_count() == old(self).spec_count(),
            action == spec_history_action(final(self).spec_history()),
    {
        let cw_pin: u8 = if cw_pin_high { 1 } else { 0 };
        let ccw_pin: u8 = if ccw_pin_high { 1 } else { 0 };
        let previous: u8 = self.rotation_state;
        let sample: u8 = ((cw_pin << 1) | ccw_pin) & 0x03;
        // Keep the previous pin state as the upper two bits of the history.
        let lookup_index: u8 = ((previous << 2) | sample) & 0x0F;
        proof {
            assert(sample as int == spec_sample_bits(cw_pin_high, ccw_pin_high)) by {
                assert(((1u8 << 1) | 1u8) & 0x03 == 3u8) by (bit_vector);
                assert(((1u8 << 1) | 0u8) & 0x03 == 2u8) by (bit_vector);
                assert(((0u8 << 1) | 1u8) & 0x03 == 1u8) by (bit_vector);
                assert(((0u8 << 1) | 0u8) & 0x03 == 0u8) by (bit_vector);
            }
            assert(((previous << 2) | sample) & 0x0F == (previous % 4) * 4 + sample) by (bit_vector)
                requires
                    sample < 4,
            ;
        }
        self.rotation_state = lookup_index;
        ENCODER_ACTIONS[lookup_index as usize]
    }
}

/// The table is the cycle: for each of the sixteen histories the table
/// holds the direction that the move from the previous pin state to the
/// current one has on the cycle, and that direction counts as +1, -1 or 0.
pub proof fn lemma_table_follows_cycle()
    ensures
        forall|history: int|
            0 <= history < 16 ==> #[trigger] ENCODER_ACTIONS@[history] == spec_history_action(
                history,
            ),
        forall|history: int|
            0 <= history < 16 ==> -1 <= (#[trigger] spec_history_action(history)).spec_step()
                <= 1,
{
}

/// The net count of a run of samples: the sum of the ticks decoded from
/// `samples`, taken in order, when the pins stood at `last_pins` before the
/// first of them.
pub open spec fn spec_net_steps(last_pins: int, samples: Seq<(bool, bool)>) -> int
    decreases samples.len(),
{
    if samples.len() == 0 {
        0
    } else {
        let pins = spec_sample_bits(samples[0].0, samples[0].1);
        spec_direction(last_pins, pins).spec_step() + spec_net_steps(pins, samples.drop_first())
    }
}

/// History and count of a decoder after it has taken `samples` in order.
pub open spec fn spec_replay(history: int, count: i32, samples: Seq<(bool, bool)>) -> (int, i32)
    decreases samples.len(),
{
    if samples.len() == 0 {
        (history, count)
    } else {
        spec_replay(
            spec_next_history(history, samples[0].0, samples[0].1),
            spec_next_count(count, history, samples[0].0, samples[0].1),
            samples.drop_first(),
        )
    }
}

/// The difference between two successive readings is the tick that was
/// decoded between them, also where the count wrapped around in between.
pub proof fn lemma_delta_is_decoded_step(
    count: i32,
    history: int,
    cw_pin_high: bool,
    ccw_pin_high: bool,
)
    ensures
        spec_rotation_delta(count, spec_next_count(count, history, cw_pin_high, ccw_pin_high))
            == spec_history_action(
            spec_next_history(history, cw_pin_high, ccw_pin_high),
        ).spec_step(),
{
}

/// The same run of samples always gives the same net count. What a decoder
/// adds to its count over a run depends on the run and on the pin state
/// before it, and on nothing else: not on the count it started from, nor on
/// older history. The count moves by that net sum, modulo the 32-bit wrap;
/// where the sum stays within the 32-bit range the count is exactly the
/// sum. The net sum of a run is never longer than the run.
pub proof fn lemma_replay_adds_net_steps(history: int, count: i32, samples: Seq<(bool, bool)>)
    requires
        0 <= history < 16,
    ensures
        (spec_replay(history, count, samples).1 - count - spec_net_steps(history % 4, samples))
            % 0x1_0000_0000 == 0,
        i32::MIN <= count + spec_net_steps(history % 4, samples) <= i32::MAX ==> spec_replay(
            history,
            count,
            samples,
        ).1 == count + spec_net_steps(history % 4, samples),
        -samples.len() <= spec_net_steps(history % 4, samples) <= samples.len(),
        0 <= spec_replay(history, count, samples).0 < 16,
    decreases samples.len(),
{
    if samples.len() > 0 {
        let next_history = spec_next_history(history, samples[0].0, samples[0].1);
        let next_count = spec_next_count(count, history, samples[0].0, samples[0].1);
        let step = spec_history_action(next_history).spec_step();
        let rest = samples.drop_first();
        lemma_replay_adds_net_steps(next_history, next_count, rest);
        let wrapped = next_count - count - step;
        let tail = spec_replay(next_history, next_count, rest).1 - next_count - spec_net_steps(
            next_history % 4,
            rest,
        );
        // The count moves by the step, or by the step and one whole turn of
        // the 32-bit range.
        assert(wrapped == 0 || wrapped == 0x1_0000_0000 || wrapped == -0x1_0000_0000);
        assert((tail + wrapped) % 0x1_0000_0000 == 0) by {
            vstd::arithmetic::div_mod::lemma_mod_multiples_vanish(1, tail, 0x1_0000_0000);
            vstd::arithmetic::div_mod::lemma_mod_multiples_vanish(-1, tail, 0x1_0000_0000);
        }
    }
    let moved = spec_replay(history, count, samples).1 - count - spec_net_steps(
        history % 4,
        samples,
    );
    if i32::MIN <= count + spec_net_steps(history % 4, samples) <= i32::MAX {
        assert(moved == 0) by {
            if moved < 0 {
                vstd::arithmetic::div_mod::lemma_mod_multiples_vanish(
                    1,
                    moved,
                    0x1_0000_0000,
                );
                vstd::arithmetic::div_mod::lemma_small_mod(
                    (moved + 0x1_0000_0000) as nat,
                    0x1_0000_0000,
                );
            }
        }
    }
}

} // verus!
