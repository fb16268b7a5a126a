//! The host's side of the link: which of the serial ports is a macropad,
//! and what the answer to a command amounts to.

use vstd::prelude::*;
use vstd::string::StrSliceExecFns;
use crate::protocol::{Message, ResponseCode, ResponsePayload};

verus! {

/// Whether a USB serial number is that of a macropad: it begins with
/// `MP00`.
pub open spec fn spec_is_micropad_serial(serial: Seq<char>) -> bool {
    &&& serial.len() >= 4
    &&& serial[0] == 'M'
    &&& serial[1] == 'P'
    &&& serial[2] == '0'
    &&& serial[3] == '0'
}

/// Whether a USB serial number is that of a macropad.
pub fn is_micropad_serial(serial: &str) -> (matches: bool)
    ensures
        matches == spec_is_micropad_serial(serial@),
{
    serial.unicode_len() >= 4 && serial.get_char(0) == 'M' && serial.get_char(1) == 'P'
        && serial.get_char(2) == '0' && serial.get_char(3) == '0'
}

/// What the host knows of one serial port.
#[derive(Clone, Debug)]
pub struct PortDescription {
    /// The name under which the port is opened.
    pub port_name: String,
    /// The serial number of the USB device behind the port; none for a port
    /// that is not USB, or whose device gives no serial number.
    pub usb_serial_number: Option<String>,
}

impl PortDescription {
    /// Whether the port belongs to a macropad.
    pub open spec fn spec_is_micropad(self) -> bool {
        match self.usb_serial_number {
            Some(serial) => spec_is_micropad_serial(serial@),
            None => false,
        }
    }

    /// Whether the port belongs to a macropad.
    pub fn is_micropad(&self) -> (matches: bool)
        ensures
            matches == self.spec_is_micropad(),
    {
        match &self.usb_serial_number {
            Some(serial) => is_micropad_serial(serial.as_str()),
            None => false,
        }
    }
}

/// The indices of the macropads among the first `upto` of `ports`, in the
/// order of the ports.
pub open spec fn spec_micropads(ports: Seq<PortDescription>, upto: int) -> Seq<usize>
    decreases upto,
{
    if upto <= 0 {
        seq![]
    } else if ports[upto - 1].spec_is_micropad() {
        spec_micropads(ports, upto - 1).push((upto - 1) as usize)
    } else {
        spec_micropads(ports, upto - 1)
    }
}

/// The indices of the macropads among `ports`, in the order of the ports.
pub fn find_micropads(ports: &Vec<PortDescription>) -> (found: Vec<usize>)
    ensures
        found@ == spec_micropads(ports@, ports.len() as int),
{
    let mut found: Vec<usize> = Vec::new();
    for i in 0..ports.len()
        invariant
            found@ == spec_micropads(ports@, i as int),
    {
        if ports[i].is_micropad() {
            found.push(i);
        }
    }
    found
}

/// The index of the macropad at `position` among the macropads of `ports`,
/// counted from zero in the order of the ports; none where there are not
/// that many.
pub fn find_micropad(ports: &Vec<PortDescription>, position: usize) -> (found: Option<usize>)
    ensures
        found == if position < spec_micropads(ports@, ports.len() as int).len() {
            Some(spec_micropads(ports@, ports.len() as int)[position as int])
        } else {
            None
        },
{
    let micropads = find_micropads(ports);
    if position < micropads.len() {
        Some(micropads[position])
    } else {
        None
    }
}

/// The list of macropads is the list of ports with the others left out:
/// every index in it is that of a port whose serial number begins with
/// `MP00`, the indices rise, and no such port among the first `upto` is
/// missing.
pub proof fn lemma_micropads_are_the_matching_ports(ports: Seq<PortDescription>, upto: int)
    requires
        0 <= upto <= ports.len(),
        upto <= usize::MAX,
    ensures
        forall|k: int|
            0 <= k < spec_micropads(ports, upto).len() ==> {
                &&& 0 <= (#[trigger] spec_micropads(ports, upto)[k]) < upto
                &&& ports[spec_micropads(ports, upto)[k] as int].spec_is_micropad()
            },
        forall|j: int, k: int|
            0 <= j < k < spec_micropads(ports, upto).len() ==> spec_micropads(ports, upto)[j]
                < spec_micropads(ports, upto)[k],
        forall|i: int|
            0 <= i < upto && (#[trigger] ports[i]).spec_is_micropad() ==> spec_micropads(
                ports,
                upto,
            ).contains(i as usize),
    decreases upto,
{
    if upto > 0 {
        lemma_micropads_are_the_matching_ports(ports, upto - 1);
        let before = spec_micropads(ports, upto - 1);
        let now = spec_micropads(ports, upto);
        assert forall|i: int|
            0 <= i < upto && (#[trigger] ports[i]).spec_is_micropad() implies now.contains(
            i as usize,
        ) by {
            if i < upto - 1 {
                assert(before.contains(i as usize));
                let k = choose|k: int| 0 <= k < before.len() && before[k] == i as usize;
                assert(now[k] == i as usize);
            } else {
                assert(now[now.len() - 1] == i as usize);
            }
        }
    }
}

/// What the answer to a command amounts to for the host.
#[derive(Copy, Clone, Debug, PartialEq, Eq, Structural)]
pub enum CommandOutcome {
    /// The device has done what was asked and had nothing to report.
    Acknowledged,
    /// The LED brightness that the device reports.
    LedBrightness(u8),
    /// The mode counts and the current mode that the device reports.
    ModeInfo { built_in_mode_count: u8, user_mode_count: u8, current_mode_index: u8 },
    /// The device has not done what was asked; its status code is kept.
    Failed(ResponseCode),
}

/// The outcome of a command: success needs the status `Okay`, and for a
/// query also the payload of the query's shape; everything else is a
/// failure that keeps the status code.
pub open spec fn spec_outcome(message: Message, code: ResponseCode, payload: ResponsePayload)
    -> CommandOutcome {
    if code != ResponseCode::Okay {
        CommandOutcome::Failed(code)
    } else {
        match (message, payload) {
            (Message::GetLedBrightness, ResponsePayload::LedBrightness(brightness)) => {
                CommandOutcome::LedBrightness(brightness)
            },
            (
                Message::GetModeInfo,
                ResponsePayload::ModeInfo {
                    built_in_mode_count,
                    user_mode_count,
                    current_mode_index,
                },
            ) => CommandOutcome::ModeInfo {
                built_in_mode_count,
                user_mode_count,
                current_mode_index,
            },
            (Message::GetLedBrightness, _) => CommandOutcome::Failed(code),
            (Message::GetModeInfo, _) => CommandOutcome::Failed(code),
            _ => CommandOutcome::Acknowledged,
        }
    }
}

/// Reads the answer `(code, payload)` to the command `message`.
pub fn outcome(message: &Message, code: ResponseCode, payload: &ResponsePayload) -> (result:
    CommandOutcome)
    ensures
        result == spec_outcome(*message, code, *payload),
{
    match (code, message, payload) {
        (
            ResponseCode::Okay,
            Message::GetLedBrightness,
            ResponsePayload::LedBrightness(brightness),
        ) => CommandOutcome::LedBrightness(*brightness),
        (
            ResponseCode::Okay,
            Message::GetModeInfo,
            ResponsePayload::ModeInfo { built_in_mode_count, user_mode_count, current_mode_index },
        ) => CommandOutcome::ModeInfo {
            built_in_mode_count: *built_in_mode_count,
            user_mode_count: *user_mode_count,
            current_mode_index: *current_mode_index,
        },
        (ResponseCode::Okay, Message::GetLedBrightness, _) => CommandOutcome::Failed(code),
        (ResponseCode::Okay, Message::GetModeInfo, _) => CommandOutcome::Failed(code),
        (ResponseCode::Okay, _, _) => CommandOutcome::Acknowledged,
        _ => CommandOutcome::Failed(code),
    }
}

} // verus!
