use micropad::protocol::{Message, MessageFrame, ResponseCode, ResponsePayload, FRAME_SIZE};

fn frame_of(buf: [u8; 8]) -> MessageFrame {
    MessageFrame { buf }
}

#[test]
fn new_frame_is_eight_zero_bytes() {
    let frame = MessageFrame::new();
    assert_eq!(frame.buf, [0u8; 8]);
    assert_eq!(frame.frame_size(), 8);
    assert_eq!(FRAME_SIZE, 8);
}

#[test]
fn message_codes_are_the_opcodes() {
    assert_eq!(Message::Ping.code(), 0x01);
    assert_eq!(Message::SetLedBrightness(9).code(), 0x02);
    assert_eq!(Message::GetLedBrightness.code(), 0x03);
    assert_eq!(Message::GetModeInfo.code(), 0x04);
    assert_eq!(Message::Unknown.code(), 0xFF);
}

#[test]
fn encode_ping() {
    assert_eq!(MessageFrame::from(&Message::Ping).buf, [0x01, 0, 0, 0, 0, 0, 0, 0]);
}

#[test]
fn encode_set_led_brightness() {
    assert_eq!(
        MessageFrame::from(&Message::SetLedBrightness(200)).buf,
        [0x02, 200, 0, 0, 0, 0, 0, 0]
    );
    assert_eq!(
        MessageFrame::from(&Message::SetLedBrightness(0)).buf,
        [0x02, 0, 0, 0, 0, 0, 0, 0]
    );
    assert_eq!(
        MessageFrame::from(&Message::SetLedBrightness(255)).buf,
        [0x02, 255, 0, 0, 0, 0, 0, 0]
    );
}

#[test]
fn encode_get_led_brightness() {
    assert_eq!(MessageFrame::from(&Message::GetLedBrightness).buf, [0x03, 0, 0, 0, 0, 0, 0, 0]);
}

#[test]
fn encode_get_mode_info() {
    assert_eq!(MessageFrame::from(&Message::GetModeInfo).buf, [0x04, 0, 0, 0, 0, 0, 0, 0]);
}

#[test]
fn encode_unknown_is_all_zero() {
    assert_eq!(MessageFrame::from(&Message::Unknown).buf, [0u8; 8]);
}

#[test]
fn decode_reads_the_opcode() {
    assert_eq!(Message::from(&frame_of([0x01, 0, 0, 0, 0, 0, 0, 0])), Message::Ping);
    assert_eq!(
        Message::from(&frame_of([0x02, 77, 0, 0, 0, 0, 0, 0])),
        Message::SetLedBrightness(77)
    );
    assert_eq!(Message::from(&frame_of([0x03, 0, 0, 0, 0, 0, 0, 0])), Message::GetLedBrightness);
    assert_eq!(Message::from(&frame_of([0x04, 0, 0, 0, 0, 0, 0, 0])), Message::GetModeInfo);
}

#[test]
fn decode_ignores_bytes_the_message_does_not_use() {
    assert_eq!(Message::from(&frame_of([0x01, 9, 8, 7, 6, 5, 4, 3])), Message::Ping);
    assert_eq!(
        Message::from(&frame_of([0x02, 31, 8, 7, 6, 5, 4, 3])),
        Message::SetLedBrightness(31)
    );
    assert_eq!(Message::from(&frame_of([0x7F, 9, 8, 7, 6, 5, 4, 3])), Message::Unknown);
}

#[test]
fn decode_of_every_other_opcode_is_unknown() {
    for opcode in 0u16..=255 {
        let opcode = opcode as u8;
        let message = Message::from(&frame_of([opcode, 5, 0, 0, 0, 0, 0, 0]));
        let expected = match opcode {
            0x01 => Message::Ping,
            0x02 => Message::SetLedBrightness(5),
            0x03 => Message::GetLedBrightness,
            0x04 => Message::GetModeInfo,
            _ => Message::Unknown,
        };
        assert_eq!(message, expected, "opcode {opcode:#04x}");
    }
}

#[test]
fn decode_inverts_encode_for_every_message() {
    let mut messages =
        vec![Message::Ping, Message::GetLedBrightness, Message::GetModeInfo, Message::Unknown];
    for brightness in 0u16..=255 {
        messages.push(Message::SetLedBrightness(brightness as u8));
    }
    for message in messages {
        let frame = MessageFrame::from(&message);
        assert_eq!(Message::from(&frame), message);
        let used = match message {
            Message::SetLedBrightness(_) => 2,
            _ => 1,
        };
        assert!(frame.buf[used..].iter().all(|byte| *byte == 0), "{message:?} is not padded");
    }
}

#[test]
fn response_code_raw_values() {
    assert_eq!(ResponseCode::Okay.raw(), 0x00);
    assert_eq!(ResponseCode::UnknownMessage.raw(), 0x01);
    assert_eq!(ResponseCode::Unknown.raw(), 0xFF);
}

#[test]
fn response_code_from_every_byte() {
    for raw in 0u16..=255 {
        let raw = raw as u8;
        let expected = match raw {
            0x00 => ResponseCode::Okay,
            0x01 => ResponseCode::UnknownMessage,
            _ => ResponseCode::Unknown,
        };
        assert_eq!(ResponseCode::from(raw), expected);
    }
}

#[test]
fn response_code_survives_the_wire() {
    for code in [ResponseCode::Okay, ResponseCode::UnknownMessage, ResponseCode::Unknown] {
        assert_eq!(ResponseCode::from(code.raw()), code);
    }
}

#[test]
fn fill_empty_zeroes_all_but_the_status_byte() {
    let mut frame = frame_of([0xAA; 8]);
    ResponsePayload::Empty.fill(&mut frame);
    assert_eq!(frame.buf, [0xAA, 0, 0, 0, 0, 0, 0, 0]);
}

#[test]
fn fill_led_brightness() {
    let mut frame = frame_of([0xAA; 8]);
    ResponsePayload::LedBrightness(200).fill(&mut frame);
    assert_eq!(frame.buf, [0xAA, 200, 0, 0, 0, 0, 0, 0]);
}

#[test]
fn fill_mode_info() {
    let mut frame = frame_of([0xAA; 8]);
    let payload = ResponsePayload::ModeInfo {
        built_in_mode_count: 3,
        user_mode_count: 5,
        current_mode_index: 7,
    };
    payload.fill(&mut frame);
    assert_eq!(frame.buf, [0xAA, 3, 5, 7, 0, 0, 0, 0]);
}

#[test]
fn payload_is_read_against_the_request() {
    let frame = frame_of([0x00, 11, 22, 33, 44, 55, 66, 77]);
    assert_eq!(ResponsePayload::from_message(&Message::Ping, &frame), ResponsePayload::Empty);
    assert_eq!(
        ResponsePayload::from_message(&Message::SetLedBrightness(1), &frame),
        ResponsePayload::Empty
    );
    assert_eq!(ResponsePayload::from_message(&Message::Unknown, &frame), ResponsePayload::Empty);
    assert_eq!(
        ResponsePayload::from_message(&Message::GetLedBrightness, &frame),
        ResponsePayload::LedBrightness(11)
    );
    assert_eq!(
        ResponsePayload::from_message(&Message::GetModeInfo, &frame),
        ResponsePayload::ModeInfo {
            built_in_mode_count: 11,
            user_mode_count: 22,
            current_mode_index: 33,
        }
    );
}

#[test]
fn into_code_and_payload_splits_a_response() {
    let frame = frame_of([0x00, 200, 0, 0, 0, 0, 0, 0]);
    assert_eq!(
        frame.into_code_and_payload(&Message::GetLedBrightness),
        (ResponseCode::Okay, ResponsePayload::LedBrightness(200))
    );
    let frame = frame_of([0x01, 0, 0, 0, 0, 0, 0, 0]);
    assert_eq!(
        frame.into_code_and_payload(&Message::Ping),
        (ResponseCode::UnknownMessage, ResponsePayload::Empty)
    );
    let frame = frame_of([0x42, 1, 2, 3, 0, 0, 0, 0]);
    assert_eq!(
        frame.into_code_and_payload(&Message::GetModeInfo),
        (
            ResponseCode::Unknown,
            ResponsePayload::ModeInfo {
                built_in_mode_count: 1,
                user_mode_count: 2,
                current_mode_index: 3,
            }
        )
    );
}

#[test]
fn response_frame_is_status_then_padded_payload() {
    assert_eq!(
        MessageFrame::response(ResponseCode::Okay, &ResponsePayload::LedBrightness(127)).buf,
        [0x00, 127, 0, 0, 0, 0, 0, 0]
    );
    assert_eq!(
        MessageFrame::response(ResponseCode::UnknownMessage, &ResponsePayload::Empty).buf,
        [0x01, 0, 0, 0, 0, 0, 0, 0]
    );
    assert_eq!(
        MessageFrame::response(
            ResponseCode::Unknown,
            &ResponsePayload::ModeInfo {
                built_in_mode_count: 4,
                user_mode_count: 2,
                current_mode_index: 1,
            }
        )
        .buf,
        [0xFF, 4, 2, 1, 0, 0, 0, 0]
    );
}

#[test]
fn response_survives_the_wire_when_read_against_its_request() {
    let cases = [
        (Message::Ping, ResponsePayload::Empty),
        (Message::SetLedBrightness(3), ResponsePayload::Empty),
        (Message::Unknown, ResponsePayload::Empty),
        (Message::GetLedBrightness, ResponsePayload::LedBrightness(91)),
        (
            Message::GetModeInfo,
            ResponsePayload::ModeInfo {
                built_in_mode_count: 6,
                user_mode_count: 0,
                current_mode_index: 5,
            },
        ),
    ];
    for (message, payload) in cases {
        for code in [ResponseCode::Okay, ResponseCode::UnknownMessage, ResponseCode::Unknown] {
            let frame = MessageFrame::response(code, &payload);
            assert_eq!(frame.into_code_and_payload(&message), (code, payload));
        }
    }
}
