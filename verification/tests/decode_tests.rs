//! Decoding every inbound message kind, including the malformed ones.

use firmata::board::Board;
use firmata::connection::ScriptedConnection;
use firmata::error::Error;
use firmata::types::Message;
use firmata::types::Pin;

fn board_reading(script: Vec<u8>, n_pins: usize) -> Board<ScriptedConnection> {
    let mut pins = Vec::new();
    for _ in 0..n_pins {
        pins.push(Pin::default());
    }
    Board {
        connection: ScriptedConnection::new(script),
        pins,
        i2c_data: Vec::new(),
        protocol_version: String::new(),
        firmware_name: String::new(),
        firmware_version: String::new(),
    }
}

#[test]
fn protocol_version_is_stored_dotted() {
    let mut b = board_reading(vec![0xF9, 2, 5], 0);
    let m = b.read_and_decode().unwrap();
    assert!(matches!(m, Message::ProtocolVersion));
    assert_eq!(b.protocol_version, "2.5");
}

#[test]
fn protocol_version_three_digit_parts() {
    let mut b = board_reading(vec![0xF9, 255, 100], 0);
    b.read_and_decode().unwrap();
    assert_eq!(b.protocol_version, "255.100");
}

#[test]
fn analog_message_stores_fourteen_bit_value() {
    // Low nibble 1 addresses pin 15; 0x68 | 0x07 << 7 = 1000.
    let mut b = board_reading(vec![0xE1, 0x68, 0x07], 20);
    let m = b.read_and_decode().unwrap();
    assert!(matches!(m, Message::Analog));
    assert_eq!(b.pins[15].value, 1000);
}

#[test]
fn analog_message_past_pin_list_is_ignored() {
    let mut b = board_reading(vec![0xE2, 0x0A, 0x00], 3);
    let m = b.read_and_decode().unwrap();
    assert!(matches!(m, Message::Analog));
    for p in b.pins() {
        assert_eq!(p.value, 0);
    }
}

#[test]
fn digital_message_updates_only_input_pins() {
    let mut b = board_reading(vec![0x90, 0b0000_0011, 0x00], 8);
    b.pins[0].mode = firmata::constants::PIN_MODE_INPUT;
    b.pins[1].mode = firmata::constants::PIN_MODE_OUTPUT;
    b.pins[2].mode = firmata::constants::PIN_MODE_INPUT;
    let m = b.read_and_decode().unwrap();
    assert!(matches!(m, Message::Digital));
    assert_eq!(b.pins[0].value, 1);
    // An output pin keeps its value even though the port byte carries its bit.
    assert_eq!(b.pins[1].value, 0);
    assert_eq!(b.pins[2].value, 0);
}

#[test]
fn digital_message_tolerates_short_pin_list() {
    let mut b = board_reading(vec![0x91, 0x7F, 0x01], 4);
    let m = b.read_and_decode().unwrap();
    assert!(matches!(m, Message::Digital));
}

#[test]
fn bad_byte_fails_with_that_byte() {
    let mut b = board_reading(vec![0x42, 0x00, 0x00], 2);
    let r = b.read_and_decode();
    assert_eq!(r, Err(Error::BadByte { byte: 0x42 }));
    assert_eq!(b.pins[0].value, 0);
}

#[test]
fn empty_sysex_is_an_empty_response() {
    let mut b = board_reading(vec![0xF0, 0xF7, 0x00, 0xF7], 0);
    let m = b.read_and_decode().unwrap();
    assert!(matches!(m, Message::EmptyResponse));
}

#[test]
fn unknown_sysex_fails_with_its_code() {
    let mut b = board_reading(vec![0xF0, 0x55, 0x00, 0xF7], 0);
    let r = b.read_and_decode();
    assert_eq!(r, Err(Error::UnknownSysEx { code: 0x55 }));
}

#[test]
fn capability_response_rebuilds_pin_list() {
    // Two pins: mode set {(2, 8)} and {(1, 1), (0, 1)}, each closed by 0x7F.
    let script = vec![0xF0, 0x6C, 2, 8, 0x7F, 1, 1, 0, 1, 0x7F, 0xF7];
    let mut b = board_reading(script, 0);
    let m = b.read_and_decode().unwrap();
    assert!(matches!(m, Message::CapabilityResponse));
    assert_eq!(b.pins.len(), 3);
    // Pin zero is the reserved placeholder.
    assert_eq!(b.pins[1].modes, vec![(2, 8)]);
    assert_eq!(b.pins[1].mode, 2);
    assert_eq!(b.pins[1].resolution, 8);
    assert_eq!(b.pins[2].modes, vec![(1, 1), (0, 1)]);
    assert_eq!(b.pins[2].mode, 1);
    assert_eq!(b.pins[2].resolution, 1);
}

#[test]
fn capability_response_empty_payload_leaves_only_reserved_pin() {
    let mut b = board_reading(vec![0xF0, 0x6C, 0xF7, 0xF7], 5);
    let m = b.read_and_decode().unwrap();
    assert!(matches!(m, Message::CapabilityResponse));
    assert_eq!(b.pins.len(), 1);
}

#[test]
fn analog_mapping_marks_capable_pins() {
    let mut b = board_reading(vec![0xF0, 0x6A, 0x7F, 0x00, 0xF7], 3);
    b.pins[0].mode = 1;
    b.pins[1].mode = 1;
    b.pins[2].mode = 1;
    let m = b.read_and_decode().unwrap();
    assert!(matches!(m, Message::AnalogMappingResponse));
    // 0x7F means not analog-capable: pin 0 untouched.
    assert_eq!(b.pins[0].mode, 1);
    // Any other byte marks the pin analog.
    assert_eq!(b.pins[1].mode, 2);
    assert_eq!(b.pins[1].modes, vec![(2, 10)]);
    assert_eq!(b.pins[1].resolution, 10);
    // Payload ends before pin 2: untouched.
    assert_eq!(b.pins[2].mode, 1);
}

#[test]
fn report_firmware_stores_version_and_name() {
    let script = vec![0xF0, 0x79, 2, 3, b'T', b'e', b's', b't', 0xF7];
    let mut b = board_reading(script, 0);
    let m = b.read_and_decode().unwrap();
    assert!(matches!(m, Message::ReportFirmware));
    assert_eq!(b.firmware_version, "2.3");
    assert_eq!(b.firmware_name, "Test");
}

#[test]
fn report_firmware_without_name() {
    let mut b = board_reading(vec![0xF0, 0x79, 1, 0, 0xF7], 0);
    b.read_and_decode().unwrap();
    assert_eq!(b.firmware_version, "1.0");
    assert_eq!(b.firmware_name, "");
}

#[test]
fn report_firmware_multibyte_name() {
    // The name is raw UTF-8: two bytes encoding one character.
    let script = vec![0xF0, 0x79, 1, 1, 0xC3, 0xA9, 0xF7];
    let mut b = board_reading(script, 0);
    b.read_and_decode().unwrap();
    assert_eq!(b.firmware_name, "\u{e9}");
}

#[test]
fn report_firmware_invalid_name_is_a_hard_error() {
    let script = vec![0xF0, 0x79, 2, 3, 0xFF, 0xF7];
    let mut b = board_reading(script, 0);
    let r = b.read_and_decode();
    assert_eq!(r, Err(Error::Utf8Error));
    // The version had already been decoded when the name failed.
    assert_eq!(b.firmware_version, "2.3");
    assert_eq!(b.firmware_name, "");
}

#[test]
fn report_firmware_too_short() {
    let mut b = board_reading(vec![0xF0, 0x79, 2, 0xF7], 0);
    let r = b.read_and_decode();
    assert_eq!(r, Err(Error::MessageTooShort));
}

#[test]
fn i2c_reply_is_decoded_and_queued() {
    let script = vec![0xF0, 0x77, 5, 0, 10, 0, 65, 0, 66, 0, 0xF7];
    let mut b = board_reading(script, 0);
    let m = b.read_and_decode().unwrap();
    assert!(matches!(m, Message::I2CReply));
    assert_eq!(b.i2c_data.len(), 1);
    assert_eq!(b.i2c_data[0].address, 5);
    assert_eq!(b.i2c_data[0].register, 10);
    assert_eq!(b.i2c_data[0].data, vec![65, 66]);
}

#[test]
fn i2c_replies_append_never_overwrite() {
    let script = vec![
        0xF0, 0x77, 5, 0, 10, 0, 65, 0, 0xF7, //
        0xF0, 0x77, 6, 0, 11, 0, 70, 0, 0xF7,
    ];
    let mut b = board_reading(script, 0);
    b.read_and_decode().unwrap();
    b.read_and_decode().unwrap();
    assert_eq!(b.i2c_data.len(), 2);
    assert_eq!(b.i2c_data[0].address, 5);
    assert_eq!(b.i2c_data[1].address, 6);
}

#[test]
fn i2c_reply_too_short() {
    let mut b = board_reading(vec![0xF0, 0x77, 5, 0xF7], 0);
    let r = b.read_and_decode();
    assert_eq!(r, Err(Error::MessageTooShort));
    assert!(b.i2c_data.is_empty());
}

#[test]
fn pin_state_response_sets_mode_and_value() {
    let mut b = board_reading(vec![0xF0, 0x6E, 1, 3, 42, 0xF7], 3);
    let m = b.read_and_decode().unwrap();
    assert!(matches!(m, Message::PinStateResponse));
    assert_eq!(b.pins[1].mode, 3);
    assert_eq!(b.pins[1].value, 42);
    // Supported modes are rewritten only by a capability response.
    assert_eq!(b.pins[1].modes, vec![(2, 10)]);
}

#[test]
fn pin_state_response_without_state() {
    let mut b = board_reading(vec![0xF0, 0x6E, 1, 0xF7], 3);
    let m = b.read_and_decode().unwrap();
    assert!(matches!(m, Message::PinStateResponse));
    assert_eq!(b.pins[1].mode, 2);
    assert_eq!(b.pins[1].value, 0);
}

#[test]
fn pin_state_response_past_pin_list_is_skipped() {
    let mut b = board_reading(vec![0xF0, 0x6E, 9, 3, 42, 0xF7], 2);
    let m = b.read_and_decode().unwrap();
    assert!(matches!(m, Message::PinStateResponse));
}

#[test]
fn transport_failure_is_an_io_error() {
    let mut b = board_reading(Vec::new(), 2);
    let r = b.read_and_decode();
    assert_eq!(r, Err(Error::IoError));
    assert_eq!(b.pins[0].value, 0);
}

#[test]
fn pop_i2c_reply_consumes_oldest_first() {
    let script = vec![
        0xF0, 0x77, 5, 0, 10, 0, 65, 0, 0xF7, //
        0xF0, 0x77, 6, 0, 11, 0, 70, 0, 0xF7,
    ];
    let mut b = board_reading(script, 0);
    b.read_and_decode().unwrap();
    b.read_and_decode().unwrap();
    let first = b.pop_i2c_reply().unwrap();
    assert_eq!(first.address, 5);
    let second = b.pop_i2c_reply().unwrap();
    assert_eq!(second.address, 6);
    assert!(b.pop_i2c_reply().is_none());
}
