//! The fixed-frame request/response protocol spoken between host and device.

use vstd::prelude::*;

verus! {

/// Number of bytes in every request and response frame.
pub const FRAME_SIZE: usize = 8;

/// Opcode of a `Ping` request.
pub const OPCODE_PING: u8 = 0x01;

/// Opcode of a `SetLedBrightness` request.
pub const OPCODE_SET_LED_BRIGHTNESS: u8 = 0x02;

/// Opcode of a `GetLedBrightness` request.
pub const OPCODE_GET_LED_BRIGHTNESS: u8 = 0x03;

/// Opcode of a `GetModeInfo` request.
pub const OPCODE_GET_MODE_INFO: u8 = 0x04;

/// Code reported for a message that has no opcode of its own.
pub const OPCODE_UNKNOWN: u8 = 0xFF;

/// One host-to-device request.
#[derive(Copy, Clone, Debug, PartialEq, Eq, Structural)]
pub enum Message {
    Ping,
    SetLedBrightness(u8),
    GetLedBrightness,
    GetModeInfo,
    Unknown,
}

impl Message {
    /// The opcode that names this kind of message.
    pub open spec fn spec_code(self) -> u8 {
        match self {
            Message::Ping => OPCODE_PING,
            Message::SetLedBrightness(_) => OPCODE_SET_LED_BRIGHTNESS,
            Message::GetLedBrightness => OPCODE_GET_LED_BRIGHTNESS,
            Message::GetModeInfo => OPCODE_GET_MODE_INFO,
            Message::Unknown => OPCODE_UNKNOWN,
        }
    }

    /// The eight bytes of the frame that carries this message: the opcode,
    /// the brightness where the message has one, and zeros for the rest. A
    /// message of unknown kind is carried by a frame of zeros.
    pub open spec fn spec_encode(self) -> Seq<u8> {
        match self {
            Message::Ping => seq![OPCODE_PING, 0u8, 0u8, 0u8, 0u8, 0u8, 0u8, 0u8],
            Message::SetLedBrightness(brightness) => seq![
                OPCODE_SET_LED_BRIGHTNESS,
                brightness,
                0u8,
                0u8,
                0u8,
                0u8,
                0u8,
                0u8,
            ],
            Message::GetLedBrightness => seq![
                OPCODE_GET_LED_BRIGHTNESS,
                0u8,
                0u8,
                0u8,
                0u8,
                0u8,
                0u8,
                0u8,
            ],
            Message::GetModeInfo => seq![OPCODE_GET_MODE_INFO, 0u8, 0u8, 0u8, 0u8, 0u8, 0u8, 0u8],
            Message::Unknown => seq![0u8, 0u8, 0u8, 0u8, 0u8, 0u8, 0u8, 0u8],
        }
    }

    /// How many payload bytes this message uses behind its opcode.
    pub open spec fn spec_payload_len(self) -> int {
        match self {
            Message::SetLedBrightness(_) => 1,
            _ => 0,
        }
    }

    /// The frame that carries this message; its bytes are `spec_encode`.
    pub open spec fn spec_frame(self) -> MessageFrame {
        match self {
            Message::Ping => MessageFrame { buf: [OPCODE_PING, 0u8, 0u8, 0u8, 0u8, 0u8, 0u8, 0u8] },
            Message::SetLedBrightness(brightness) => MessageFrame {
                buf: [OPCODE_SET_LED_BRIGHTNESS, brightness, 0u8, 0u8, 0u8, 0u8, 0u8, 0u8],
            },
            Message::GetLedBrightness => MessageFrame {
                buf: [OPCODE_GET_LED_BRIGHTNESS, 0u8, 0u8, 0u8, 0u8, 0u8, 0u8, 0u8],
            },
            Message::GetModeInfo => MessageFrame {
                buf: [OPCODE_GET_MODE_INFO, 0u8, 0u8, 0u8, 0u8, 0u8, 0u8, 0u8],
            },
            Message::Unknown => MessageFrame { buf: [0u8, 0u8, 0u8, 0u8, 0u8, 0u8, 0u8, 0u8] },
        }
    }

    /// The message that the bytes of a request frame stand for. Only the
    /// opcode decides the kind; an opcode that names no request reads as
    /// `Unknown`.
    pub open spec fn spec_decode(frame: Seq<u8>) -> Message {
        if frame[0] == OPCODE_PING {
            Message::Ping
        } else if frame[0] == OPCODE_SET_LED_BRIGHTNESS {
            Message::SetLedBrightness(frame[1])
        } else if frame[0] == OPCODE_GET_LED_BRIGHTNESS {
            Message::GetLedBrightness
        } else if frame[0] == OPCODE_GET_MODE_INFO {
            Message::GetModeInfo
        } else {
            Message::Unknown
        }
    }

    /// The opcode that names this kind of message.
    pub fn code(&self) -> (code: u8)
        ensures
            code == self.spec_code(),
    {
        match self {
            Message::Ping => OPCODE_PING,
            Message::SetLedBrightness(_) => OPCODE_SET_LED_BRIGHTNESS,
            Message::GetLedBrightness => OPCODE_GET_LED_BRIGHTNESS,
            Message::GetModeInfo => OPCODE_GET_MODE_INFO,
            Message::Unknown => OPCODE_UNKNOWN,
        }
    }
}

/// Status byte that opens every response frame.
#[derive(Copy, Clone, Debug, PartialEq, Eq, Structural)]
pub enum ResponseCode {
    Okay,
    UnknownMessage,
    Unknown,
}

impl ResponseCode {
    /// The wire value of this code.
    pub open spec fn spec_raw(self) -> u8 {
        match self {
            ResponseCode::Okay => 0x00,
            ResponseCode::UnknownMessage => 0x01,
            ResponseCode::Unknown => 0xFF,
        }
    }

    /// The code a wire value stands for; every value other than the two
    /// assigned ones reads as `Unknown`.
    pub open spec fn spec_from_raw(code: u8) -> ResponseCode {
        if code == 0x00 {
            ResponseCode::Okay
        } else if code == 0x01 {
            ResponseCode::UnknownMessage
        } else {
            ResponseCode::Unknown
        }
    }

    /// The wire value of this code.
    pub fn raw(&self) -> (raw: u8)
        ensures
            raw == self.spec_raw(),
    {
        match self {
            ResponseCode::Okay => 0x00,
            ResponseCode::UnknownMessage => 0x01,
            ResponseCode::Unknown => 0xFF,
        }
    }
}

impl From<u8> for ResponseCode {
    fn from(code: u8) -> (response: ResponseCode)
        ensures
            response == ResponseCode::spec_from_raw(code),
    {
        match code {
            0x00 => ResponseCode::Okay,
            0x01 => ResponseCode::UnknownMessage,
            _ => ResponseCode::Unknown,
        }
    }
}

impl vstd::std_specs::convert::FromSpecImpl<u8> for ResponseCode {
    open spec fn obeys_from_spec() -> bool {
        true
    }

    open spec fn from_spec(code: u8) -> ResponseCode {
        ResponseCode::spec_from_raw(code)
    }
}

/// What a response frame carries after its status byte. The frame does not
/// say which shape it holds: that follows from the request it answers.
#[derive(Copy, Clone, Debug, PartialEq, Eq, Structural)]
pub enum ResponsePayload {
    Empty,
    LedBrightness(u8),
    ModeInfo { built_in_mode_count: u8, user_mode_count: u8, current_mode_index: u8 },
}

impl ResponsePayload {
    /// The seven bytes that follow the status byte of a frame carrying this
    /// payload: the payload's own bytes, then zeros up to the frame's end.
    pub open spec fn spec_bytes(self) -> Seq<u8> {
        match self {
            ResponsePayload::Empty => seq![0u8, 0u8, 0u8, 0u8, 0u8, 0u8, 0u8],
            ResponsePayload::LedBrightness(brightness) => seq![
                brightness,
                0u8,
                0u8,
                0u8,
                0u8,
                0u8,
                0u8,
            ],
            ResponsePayload::ModeInfo {
                built_in_mode_count,
                user_mode_count,
                current_mode_index,
            } => seq![
                built_in_mode_count,
                user_mode_count,
                current_mode_index,
                0u8,
                0u8,
                0u8,
                0u8,
            ],
        }
    }

    /// Whether this payload has the shape in which `message` is answered.
    pub open spec fn spec_answers(self, message: Message) -> bool {
        match message {
            Message::Ping | Message::SetLedBrightness(_) | Message::Unknown => {
                self is Empty
            },
            Message::GetLedBrightness => self is LedBrightness,
            Message::GetModeInfo => self is ModeInfo,
        }
    }

    /// The payload that the bytes of a response frame hold when the frame
    /// answers `message`.
    pub open spec fn spec_from_message(message: Message, frame: Seq<u8>) -> ResponsePayload {
        match message {
            Message::Ping | Message::SetLedBrightness(_) | Message::Unknown => {
                ResponsePayload::Empty
            },
            Message::GetLedBrightness => ResponsePayload::LedBrightness(frame[1]),
            Message::GetModeInfo => ResponsePayload::ModeInfo {
                built_in_mode_count: frame[1],
                user_mode_count: frame[2],
                current_mode_index: frame[3],
            },
        }
    }

    /// Writes this payload behind the status byte of `frame`, zero-padded to
    /// the end of the frame. The status byte is left as it was.
    pub fn fill(&self, frame: &mut MessageFrame)
        ensures
            final(frame)@ == seq![old(frame)@[0]] + self.spec_bytes(),
    {
        match self {
            ResponsePayload::Empty => {
                frame.zero_from(1);
            },
            ResponsePayload::LedBrightness(brightness) => {
                frame.buf[1] = *brightness;
                frame.zero_from(2);
            },
            ResponsePayload::ModeInfo {
                built_in_mode_count,
                user_mode_count,
                current_mode_index,
            } => {
                frame.buf[1] = *built_in_mode_count;
                frame.buf[2] = *user_mode_count;
                frame.buf[3] = *current_mode_index;
                frame.zero_from(4);
            },
        }
    }

    /// Reads from `response_frame` the payload that answers `message`.
    pub fn from_message(message: &Message, response_frame: &MessageFrame) -> (payload:
        ResponsePayload)
        ensures
            payload == Self::spec_from_message(*message, response_frame@),
            payload.spec_answers(*message),
    {
        match message {
            Message::Ping | Message::SetLedBrightness(_) | Message::Unknown => {
                ResponsePayload::Empty
            },
            Message::GetLedBrightness => ResponsePayload::LedBrightness(response_frame.buf[1]),
            Message::GetModeInfo => ResponsePayload::ModeInfo {
                built_in_mode_count: response_frame.buf[1],
                user_mode_count: response_frame.buf[2],
                current_mode_index: response_frame.buf[3],
            },
        }
    }
}

/// The wire form of one request or one response.
#[derive(Copy, Clone, Debug)]
pub struct MessageFrame {
    pub buf: [u8; 8],
}

impl View for MessageFrame {
    type V = Seq<u8>;

    open spec fn view(&self) -> Seq<u8> {
        self.buf@
    }
}

impl MessageFrame {
    /// A frame of zeros.
    pub fn new() -> (frame: MessageFrame)
        ensures
            frame@ == Seq::new(FRAME_SIZE as nat, |i: int| 0u8),
    {
        MessageFrame { buf: [0u8;8] }
    }

    /// The number of bytes in the frame.
    pub fn frame_size(&self) -> (size: usize)
        ensures
            size == FRAME_SIZE,
            size == self@.len(),
    {
        self.buf.len()
    }

    /// Sets every byte from index `start` on to zero.
    fn zero_from(&mut self, start: usize)
        requires
            start <= FRAME_SIZE,
        ensures
            final(self)@ == old(self)@.take(start as int) + Seq::new(
                (FRAME_SIZE - start) as nat,
                |i: int| 0u8,
            ),
    {
        let size = self.frame_size();
        for i in start..size
            invariant
                size == FRAME_SIZE,
                start <= FRAME_SIZE,
                self@.len() == FRAME_SIZE,
                forall|j: int| 0 <= j < start ==> self@[j] == old(self)@[j],
                forall|j: int| start <= j < i ==> self@[j] == 0u8,
        {
            self.buf[i] = 0x00;
        }
    }

    /// The frame that answers a request with `code` and `payload`.
    pub fn response(code: ResponseCode, payload: &ResponsePayload) -> (frame: MessageFrame)
        ensures
            frame@ == spec_response_bytes(code, *payload),
    {
        let mut frame = MessageFrame::new();
        frame.buf[0] = code.raw();
        payload.fill(&mut frame);
        frame
    }

    /// Splits a response frame into its status code and the payload that
    /// answers `message`.
    pub fn into_code_and_payload(self, message: &Message) -> (response: (
        ResponseCode,
        ResponsePayload,
    ))
        ensures
            response.0 == ResponseCode::spec_from_raw(self@[0]),
            response.1 == ResponsePayload::spec_from_message(*message, self@),
            response.1.spec_answers(*message),
    {
        let code = ResponseCode::from(self.buf[0]);
        let payload = ResponsePayload::from_message(message, &self);
        (code, payload)
    }
}

impl<'a> From<&'a MessageFrame> for Message {
    fn from(frame: &'a MessageFrame) -> (message: Message)
        ensures
            message == Message::spec_decode(frame@),
    {
        match frame.buf[0] {
            OPCODE_PING => Message::Ping,
            OPCODE_SET_LED_BRIGHTNESS => Message::SetLedBrightness(frame.buf[1]),
            OPCODE_GET_LED_BRIGHTNESS => Message::GetLedBrightness,
            OPCODE_GET_MODE_INFO => Message::GetModeInfo,
            _ => Message::Unknown,
        }
    }
}

impl<'a> vstd::std_specs::convert::FromSpecImpl<&'a MessageFrame> for Message {
    open spec fn obeys_from_spec() -> bool {
        true
    }

    open spec fn from_spec(frame: &'a MessageFrame) -> Message {
        Message::spec_decode(frame@)
    }
}

impl<'a> From<&'a Message> for MessageFrame {
    fn from(message: &'a Message) -> (frame: MessageFrame)
        ensures
            frame@ == message.spec_encode(),
    {
        let mut message_frame = MessageFrame::new();
        match message {
            Message::Ping | Message::GetLedBrightness | Message::GetModeInfo => {
                message_frame.buf[0] = message.code();
                message_frame.zero_from(1);
            },
            Message::SetLedBrightness(brightness) => {
                message_frame.buf[0] = message.code();
                message_frame.buf[1] = *brightness;
                message_frame.zero_from(2);
            },
            Message::Unknown => {
                message_frame.zero_from(0);
            },
        }
        assert(message_frame.buf =~= message.spec_frame().buf);
        message_frame
    }
}

impl<'a> vstd::std_specs::convert::FromSpecImpl<&'a Message> for MessageFrame {
    open spec fn obeys_from_spec() -> bool {
        true
    }

    open spec fn from_spec(message: &'a Message) -> MessageFrame {
        message.spec_frame()
    }
}

/// The eight bytes of a response frame: the status byte, then the payload
/// padded with zeros.
pub open spec fn spec_response_bytes(code: ResponseCode, payload: ResponsePayload) -> Seq<u8> {
    seq![code.spec_raw()] + payload.spec_bytes()
}

/// Decoding undoes encoding: the frame that carries a message decodes to
/// that message, whatever the message. The frame has the fixed size, and
/// every byte behind the opcode and the bytes the message uses is zero.
pub proof fn lemma_decode_inverts_encode(message: Message)
    ensures
        message.spec_encode().len() == FRAME_SIZE,
        message.spec_frame()@ == message.spec_encode(),
        Message::spec_decode(message.spec_encode()) == message,
        forall|i: int|
            message.spec_payload_len() < i < FRAME_SIZE ==> message.spec_encode()[i] == 0u8,
{
}

/// A status code survives the wire: reading the byte written for a code
/// gives the code back.
pub proof fn lemma_code_survives_wire(code: ResponseCode)
    ensures
        ResponseCode::spec_from_raw(code.spec_raw()) == code,
{
}

/// A response survives the wire when read against the request it answers:
/// for a payload of the shape that answers `message`, the frame built from
/// `code` and `payload` reads back as exactly that code and payload. The
/// frame has the fixed size.
pub proof fn lemma_response_survives_wire(
    message: Message,
    code: ResponseCode,
    payload: ResponsePayload,
)
    requires
        payload.spec_answers(message),
    ensures
        spec_response_bytes(code, payload).len() == FRAME_SIZE,
        ResponseCode::spec_from_raw(spec_response_bytes(code, payload)[0]) == code,
        ResponsePayload::spec_from_message(message, spec_response_bytes(code, payload))
            == payload,
{
}

} // verus!
