use micropad::host::{find_micropad, find_micropads, is_micropad_serial, outcome};
use micropad::host::{CommandOutcome, PortDescription};
use micropad::protocol::{Message, ResponseCode, ResponsePayload};

fn port(name: &str, serial: Option<&str>) -> PortDescription {
    PortDescription {
        port_name: name.to_string(),
        usb_serial_number: serial.map(|serial| serial.to_string()),
    }
}

fn ports() -> Vec<PortDescription> {
    vec![
        port("/dev/ttyS0", None),
        port("/dev/ttyACM0", Some("MP00X")),
        port("/dev/ttyUSB0", Some("FT123")),
        port("/dev/ttyACM1", Some("MP00")),
        port("/dev/ttyACM2", Some("MP0")),
        port("/dev/ttyACM3", Some("MP001234")),
    ]
}

#[test]
fn serial_numbers_with_the_prefix_match() {
    assert!(is_micropad_serial("MP00"));
    assert!(is_micropad_serial("MP00X"));
    assert!(is_micropad_serial("MP00\u{e9}"));
}

#[test]
fn other_serial_numbers_do_not_match() {
    assert!(!is_micropad_serial(""));
    assert!(!is_micropad_serial("MP0"));
    assert!(!is_micropad_serial("mp00"));
    assert!(!is_micropad_serial("XMP00"));
    assert!(!is_micropad_serial("MP01"));
    assert!(!is_micropad_serial("\u{e9}MP00"));
}

#[test]
fn a_port_is_a_micropad_by_its_usb_serial_number() {
    assert!(port("a", Some("MP00A")).is_micropad());
    assert!(!port("a", Some("AMP00")).is_micropad());
    assert!(!port("MP00", None).is_micropad());
}

#[test]
fn micropads_are_found_in_the_order_of_the_ports() {
    assert_eq!(find_micropads(&ports()), vec![1, 3, 5]);
    assert_eq!(find_micropads(&Vec::new()), Vec::<usize>::new());
    assert_eq!(find_micropads(&vec![port("a", None)]), Vec::<usize>::new());
}

#[test]
fn the_micropad_at_a_position_is_found() {
    let ports = ports();
    assert_eq!(find_micropad(&ports, 0), Some(1));
    assert_eq!(find_micropad(&ports, 1), Some(3));
    assert_eq!(find_micropad(&ports, 2), Some(5));
}

#[test]
fn a_position_past_the_last_micropad_finds_none() {
    let ports = ports();
    assert_eq!(find_micropad(&ports, 3), None);
    assert_eq!(find_micropad(&ports, usize::MAX), None);
    assert_eq!(find_micropad(&Vec::new(), 0), None);
}

#[test]
fn an_ok_answer_to_a_command_is_an_acknowledgement() {
    for message in [Message::Ping, Message::SetLedBrightness(4), Message::Unknown] {
        assert_eq!(
            outcome(&message, ResponseCode::Okay, &ResponsePayload::Empty),
            CommandOutcome::Acknowledged
        );
    }
}

#[test]
fn an_ok_answer_to_a_query_carries_its_payload() {
    assert_eq!(
        outcome(
            &Message::GetLedBrightness,
            ResponseCode::Okay,
            &ResponsePayload::LedBrightness(200)
        ),
        CommandOutcome::LedBrightness(200)
    );
    let payload = ResponsePayload::ModeInfo {
        built_in_mode_count: 3,
        user_mode_count: 2,
        current_mode_index: 1,
    };
    assert_eq!(
        outcome(&Message::GetModeInfo, ResponseCode::Okay, &payload),
        CommandOutcome::ModeInfo {
            built_in_mode_count: 3,
            user_mode_count: 2,
            current_mode_index: 1,
        }
    );
}

#[test]
fn a_status_other_than_ok_is_a_failure() {
    for code in [ResponseCode::UnknownMessage, ResponseCode::Unknown] {
        assert_eq!(
            outcome(&Message::Ping, code, &ResponsePayload::Empty),
            CommandOutcome::Failed(code)
        );
        assert_eq!(
            outcome(&Message::GetLedBrightness, code, &ResponsePayload::LedBrightness(1)),
            CommandOutcome::Failed(code)
        );
    }
}

#[test]
fn a_query_answered_in_the_wrong_shape_is_a_failure() {
    assert_eq!(
        outcome(&Message::GetLedBrightness, ResponseCode::Okay, &ResponsePayload::Empty),
        CommandOutcome::Failed(ResponseCode::Okay)
    );
    assert_eq!(
        outcome(&Message::GetModeInfo, ResponseCode::Okay, &ResponsePayload::LedBrightness(1)),
        CommandOutcome::Failed(ResponseCode::Okay)
    );
}
