//! The device's shared control state and the handling of one request.
//!
//! The state is what the host can change and the main loop reads. On the
//! device a request is handled in the USB interrupt, while the main loop
//! works on a copy of the state that it takes at the start of each tick;
//! the firmware guards both accesses against each other. Here the state is
//! a plain value, and handling a request is one step from state and request
//! to state and reply.

use vstd::prelude::*;
use crate::protocol::{Message, MessageFrame, ResponseCode, ResponsePayload};
use crate::protocol::{FRAME_SIZE, spec_response_bytes};

verus! {

/// LED brightness in force from power-up until the host sets another.
pub const DEFAULT_LED_BRIGHTNESS: u8 = 127;

/// The settings that the host can change and the main loop reads.
#[derive(Copy, Clone, Debug, PartialEq, Eq, Structural)]
pub struct ControlState {
    led_brightness: u8,
}

/// The LED brightness in force after the device has handled `message`,
/// given the brightness before: only `SetLedBrightness` changes it.
pub open spec fn spec_brightness_after(brightness: u8, message: Message) -> u8 {
    match message {
        Message::SetLedBrightness(requested) => requested,
        _ => brightness,
    }
}

/// The status code with which the device answers `message`. The device
/// serves `Ping` and the two brightness requests; it keeps no modes, and
/// refuses `GetModeInfo` as it refuses a request it cannot read.
pub open spec fn spec_response_code(message: Message) -> ResponseCode {
    match message {
        Message::Ping | Message::SetLedBrightness(_) | Message::GetLedBrightness => {
            ResponseCode::Okay
        },
        Message::GetModeInfo | Message::Unknown => ResponseCode::UnknownMessage,
    }
}

/// The payload with which the device answers `message` while `brightness`
/// is in force: the brightness for `GetLedBrightness`, nothing otherwise.
pub open spec fn spec_response_payload(brightness: u8, message: Message) -> ResponsePayload {
    match message {
        Message::GetLedBrightness => ResponsePayload::LedBrightness(brightness),
        _ => ResponsePayload::Empty,
    }
}

/// The bytes of the frame with which the device answers the request frame
/// `request` while `brightness` is in force.
pub open spec fn spec_reply(brightness: u8, request: Seq<u8>) -> Seq<u8> {
    spec_response_bytes(
        spec_response_code(Message::spec_decode(request)),
        spec_response_payload(
            spec_brightness_after(brightness, Message::spec_decode(request)),
            Message::spec_decode(request),
        ),
    )
}

impl ControlState {
    /// The LED brightness this state holds.
    pub closed spec fn spec_led_brightness(self) -> u8 {
        self.led_brightness
    }

    /// The state a device starts from.
    pub fn new() -> (state: ControlState)
        ensures
            state.spec_led_brightness() == DEFAULT_LED_BRIGHTNESS,
    {
        ControlState { led_brightness: DEFAULT_LED_BRIGHTNESS }
    }

    /// Puts `brightness` in force.
    pub fn set_led_brightness(&mut self, brightness: u8)
        ensures
            final(self).spec_led_brightness() == brightness,
    {
        self.led_brightness = brightness;
    }

    /// The LED brightness in force.
    pub fn get_led_brightness(&self) -> (brightness: u8)
        ensures
            brightness == self.spec_led_brightness(),
    {
        self.led_brightness
    }

    /// Applies one decoded request to the state and gives the answer.
    pub fn handle_message(&mut self, message: &Message) -> (response: (
        ResponseCode,
        ResponsePayload,
    ))
        ensures
            final(self).spec_led_brightness() == spec_brightness_after(
                old(self).spec_led_brightness(),
                *message,
            ),
            response.0 == spec_response_code(*message),
            response.1 == spec_response_payload(
                final(self).spec_led_brightness(),
                *message,
            ),
    {
        match message {
            Message::Ping => (ResponseCode::Okay, ResponsePayload::Empty),
            Message::SetLedBrightness(brightness) => {
                self.set_led_brightness(*brightness);
                (ResponseCode::Okay, ResponsePayload::Empty)
            },
            Message::GetLedBrightness => (
                ResponseCode::Okay,
                ResponsePayload::LedBrightness(self.get_led_brightness()),
            ),
            _ => (ResponseCode::UnknownMessage, ResponsePayload::Empty),
        }
    }

    /// Handles one request frame: decodes it, applies it to the state and
    /// gives the frame to send back.
    pub fn handle_frame(&mut self, request: &MessageFrame) -> (response: MessageFrame)
        ensures
            final(self).spec_led_brightness() == spec_brightness_after(
                old(self).spec_led_brightness(),
                Message::spec_decode(request@),
            ),
            response@ == spec_reply(old(self).spec_led_brightness(), request@),
    {
        let message = Message::from(request);
        let (code, payload) = self.handle_message(&message);
        MessageFrame::response(code, &payload)
    }
}

/// What the host sets, the host reads back: after the device has handled
/// `SetLedBrightness(requested)`, whatever brightness was in force before,
/// its reply to `GetLedBrightness` reads on the host as `Okay` with
/// `LedBrightness(requested)`.
pub proof fn lemma_set_then_get_reads_back(brightness: u8, requested: u8)
    ensures
        ({
            let set = Message::SetLedBrightness(requested).spec_encode();
            let get = Message::GetLedBrightness.spec_encode();
            let in_force = spec_brightness_after(brightness, Message::spec_decode(set));
            let reply = spec_reply(in_force, get);
            &&& in_force == requested
            &&& spec_brightness_after(in_force, Message::spec_decode(get)) == requested
            &&& ResponseCode::spec_from_raw(reply[0]) == ResponseCode::Okay
            &&& ResponsePayload::spec_from_message(Message::GetLedBrightness, reply)
                == ResponsePayload::LedBrightness(requested)
        }),
{
}

/// A request whose opcode the device does not serve is refused and changes
/// nothing: for every frame whose first byte is none of the opcodes of
/// `Ping`, `SetLedBrightness` and `GetLedBrightness`, the reply is the
/// status byte of `UnknownMessage` followed by zeros, and the brightness
/// stays as it was.
pub proof fn lemma_unserved_opcode_is_refused(brightness: u8, request: Seq<u8>)
    requires
        request.len() == FRAME_SIZE,
        request[0] != crate::protocol::OPCODE_PING,
        request[0] != crate::protocol::OPCODE_SET_LED_BRIGHTNESS,
        request[0] != crate::protocol::OPCODE_GET_LED_BRIGHTNESS,
    ensures
        spec_reply(brightness, request) == seq![
            ResponseCode::UnknownMessage.spec_raw(),
            0u8,
            0u8,
            0u8,
            0u8,
            0u8,
            0u8,
            0u8,
        ],
        ResponseCode::spec_from_raw(spec_reply(brightness, request)[0])
            == ResponseCode::UnknownMessage,
        spec_brightness_after(brightness, Message::spec_decode(request)) == brightness,
{
}

/// A request changes the brightness as a whole or not at all: after the
/// device has handled any request frame, the brightness in force is either
/// the one from before or, for `SetLedBrightness`, the byte that the
/// request carries. A snapshot taken before or after the handling of a
/// request therefore never shows a value that nobody set. (That handling a
/// request and taking a snapshot do not overlap in time is for the firmware
/// to see to; this says what each of them leaves behind.)
pub proof fn lemma_brightness_changes_whole(brightness: u8, request: Seq<u8>)
    requires
        request.len() == FRAME_SIZE,
    ensures
        spec_brightness_after(brightness, Message::spec_decode(request)) == if request[0]
            == crate::protocol::OPCODE_SET_LED_BRIGHTNESS {
            request[1]
        } else {
            brightness
        },
{
}

/// What the main loop sees of the brightness over a run of accesses to the
/// shared settings, each made on its own: `Some(message)` stands for a
/// request that the device handles, `None` for a snapshot that the main
/// loop takes. The result holds the brightness of each snapshot, in order.
pub open spec fn spec_snapshots(brightness: u8, accesses: Seq<Option<Message>>) -> Seq<u8>
    decreases accesses.len(),
{
    if accesses.len() == 0 {
        seq![]
    } else {
        match accesses[0] {
            Some(message) => spec_snapshots(
                spec_brightness_after(brightness, message),
                accesses.drop_first(),
            ),
            None => seq![brightness] + spec_snapshots(brightness, accesses.drop_first()),
        }
    }
}

/// No snapshot shows a brightness that nobody set: however requests and
/// snapshots follow one another, every snapshot shows either the brightness
/// from before the run or the brightness that one of the run's
/// `SetLedBrightness` requests carries.
pub proof fn lemma_snapshots_show_set_values(brightness: u8, accesses: Seq<Option<Message>>)
    ensures
        forall|k: int|
            0 <= k < spec_snapshots(brightness, accesses).len() ==> {
                let seen = #[trigger] spec_snapshots(brightness, accesses)[k];
                seen == brightness || accesses.contains(Some(Message::SetLedBrightness(seen)))
            },
    decreases accesses.len(),
{
    if accesses.len() > 0 {
        let rest = accesses.drop_first();
        let next = match accesses[0] {
            Some(message) => spec_brightness_after(brightness, message),
            None => brightness,
        };
        lemma_snapshots_show_set_values(next, rest);
        assert forall|k: int| 0 <= k < spec_snapshots(brightness, accesses).len() implies {
            let seen = #[trigger] spec_snapshots(brightness, accesses)[k];
            seen == brightness || accesses.contains(Some(Message::SetLedBrightness(seen)))
        } by {
            let seen = spec_snapshots(brightness, accesses)[k];
            let shift: int = if accesses[0].is_none() {
                1
            } else {
                0
            };
            if k >= shift {
                let later = spec_snapshots(next, rest)[k - shift];
                assert(later == seen);
                if later != next {
                    let wanted = Some(Message::SetLedBrightness(seen));
                    assert(rest.contains(wanted));
                    let j = choose|j: int| 0 <= j < rest.len() && rest[j] == wanted;
                    assert(accesses[j + 1] == wanted);
                } else if next != brightness {
                    assert(accesses[0] == Some(Message::SetLedBrightness(seen)));
                }
            }
        }
    }
}

/// One whole exchange: the host encodes `message`, the device handles the
/// frame and replies, and the host reads the reply against `message`. The
/// host then holds the status code the device gave, and, where that code
/// is `Okay`, the payload the device gave. The device changes its
/// brightness as `message` asks and in no other way.
pub proof fn lemma_exchange(brightness: u8, message: Message)
    ensures
        ({
            let reply = spec_reply(brightness, message.spec_encode());
            let in_force = spec_brightness_after(brightness, message);
            &&& reply.len() == FRAME_SIZE
            &&& spec_brightness_after(brightness, Message::spec_decode(message.spec_encode()))
                == in_force
            &&& ResponseCode::spec_from_raw(reply[0]) == spec_response_code(message)
            &&& spec_response_code(message) == ResponseCode::Okay
                ==> ResponsePayload::spec_from_message(message, reply) == spec_response_payload(
                in_force,
                message,
            )
        }),
{
}

} // verus!
