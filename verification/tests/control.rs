use micropad::control::{ControlState, DEFAULT_LED_BRIGHTNESS};
use micropad::protocol::{Message, MessageFrame, ResponseCode, ResponsePayload};

#[test]
fn state_starts_at_the_default_brightness() {
    assert_eq!(DEFAULT_LED_BRIGHTNESS, 127);
    assert_eq!(ControlState::new().get_led_brightness(), 127);
}

#[test]
fn set_led_brightness_stores_the_value() {
    let mut state = ControlState::new();
    state.set_led_brightness(0);
    assert_eq!(state.get_led_brightness(), 0);
    state.set_led_brightness(255);
    assert_eq!(state.get_led_brightness(), 255);
}

#[test]
fn set_then_get_returns_ok_and_the_brightness() {
    let mut state = ControlState::new();
    let set = Message::SetLedBrightness(200);
    let reply = state.handle_frame(&MessageFrame::from(&set));
    assert_eq!(
        reply.into_code_and_payload(&set),
        (ResponseCode::Okay, ResponsePayload::Empty)
    );
    let get = Message::GetLedBrightness;
    let reply = state.handle_frame(&MessageFrame::from(&get));
    assert_eq!(reply.buf, [0x00, 200, 0, 0, 0, 0, 0, 0]);
    assert_eq!(
        reply.into_code_and_payload(&get),
        (ResponseCode::Okay, ResponsePayload::LedBrightness(200))
    );
}

#[test]
fn set_then_get_reads_back_every_brightness() {
    for requested in 0u16..=255 {
        let requested = requested as u8;
        let mut state = ControlState::new();
        state.handle_frame(&MessageFrame::from(&Message::SetLedBrightness(requested)));
        let get = Message::GetLedBrightness;
        let reply = state.handle_frame(&MessageFrame::from(&get));
        assert_eq!(
            reply.into_code_and_payload(&get),
            (ResponseCode::Okay, ResponsePayload::LedBrightness(requested))
        );
    }
}

#[test]
fn get_without_set_reports_the_default() {
    let mut state = ControlState::new();
    assert_eq!(
        state.handle_message(&Message::GetLedBrightness),
        (ResponseCode::Okay, ResponsePayload::LedBrightness(127))
    );
    assert_eq!(state.get_led_brightness(), 127);
}

#[test]
fn unrecognized_opcode_is_answered_with_unknown_message() {
    let mut state = ControlState::new();
    let request = MessageFrame { buf: [0x7F, 1, 2, 3, 4, 5, 6, 7] };
    let reply = state.handle_frame(&request);
    assert_eq!(reply.buf, [0x01, 0, 0, 0, 0, 0, 0, 0]);
    assert_eq!(
        reply.into_code_and_payload(&Message::Unknown),
        (ResponseCode::UnknownMessage, ResponsePayload::Empty)
    );
    assert_eq!(state.get_led_brightness(), 127);
}

#[test]
fn every_opcode_gets_its_answer() {
    for opcode in 0u16..=255 {
        let opcode = opcode as u8;
        let mut state = ControlState::new();
        state.set_led_brightness(40);
        let reply = state.handle_frame(&MessageFrame { buf: [opcode, 90, 0, 0, 0, 0, 0, 0] });
        let (expected_reply, expected_brightness) = match opcode {
            0x01 => ([0x00, 0, 0, 0, 0, 0, 0, 0], 40),
            0x02 => ([0x00, 0, 0, 0, 0, 0, 0, 0], 90),
            0x03 => ([0x00, 40, 0, 0, 0, 0, 0, 0], 40),
            _ => ([0x01, 0, 0, 0, 0, 0, 0, 0], 40),
        };
        assert_eq!(reply.buf, expected_reply, "opcode {opcode:#04x}");
        assert_eq!(state.get_led_brightness(), expected_brightness, "opcode {opcode:#04x}");
    }
}

#[test]
fn ping_is_acknowledged_and_changes_nothing() {
    let mut state = ControlState::new();
    assert_eq!(
        state.handle_message(&Message::Ping),
        (ResponseCode::Okay, ResponsePayload::Empty)
    );
    assert_eq!(state.get_led_brightness(), 127);
}

#[test]
fn mode_info_is_not_served() {
    let mut state = ControlState::new();
    assert_eq!(
        state.handle_message(&Message::GetModeInfo),
        (ResponseCode::UnknownMessage, ResponsePayload::Empty)
    );
    let reply = state.handle_frame(&MessageFrame::from(&Message::GetModeInfo));
    assert_eq!(reply.buf, [0x01, 0, 0, 0, 0, 0, 0, 0]);
}

#[test]
fn unknown_message_is_refused() {
    let mut state = ControlState::new();
    assert_eq!(
        state.handle_message(&Message::Unknown),
        (ResponseCode::UnknownMessage, ResponsePayload::Empty)
    );
    assert_eq!(state.get_led_brightness(), 127);
}

#[test]
fn a_snapshot_sees_the_brightness_before_or_after_a_write_at_any_point() {
    // A write placed at each point of a run of main-loop snapshots: the
    // snapshots before it see the old value, those after it the new one.
    let ticks = 12;
    for write_at in 0..=ticks {
        let mut shared = ControlState::new();
        shared.set_led_brightness(0x0F);
        for tick in 0..ticks {
            if tick == write_at {
                shared.handle_frame(&MessageFrame::from(&Message::SetLedBrightness(0xF0)));
            }
            let snapshot = shared.clone();
            let expected = if tick >= write_at { 0xF0 } else { 0x0F };
            assert_eq!(snapshot.get_led_brightness(), expected);
        }
    }
}

#[test]
fn a_snapshot_does_not_follow_later_writes() {
    let mut shared = ControlState::new();
    let snapshot = shared;
    shared.set_led_brightness(1);
    assert_eq!(snapshot.get_led_brightness(), 127);
    assert_eq!(shared.get_led_brightness(), 1);
}
