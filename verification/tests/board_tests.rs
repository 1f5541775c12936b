//! The analog round trip, the handshake, and the accessors.

use firmata::Firmata;
use firmata::board::Board;
use firmata::connection::ScriptedConnection;
use firmata::error::Error;
use firmata::types::Pin;

fn board_reading(script: Vec<u8>, n_pins: usize) -> Board<ScriptedConnection> {
    let mut pins = Vec::new();
    for _ in 0..n_pins {
        pins.push(Pin::default());
    }
    Board {
        connection: ScriptedConnection::new(script),
        pins,
        i2c_data: Vec::new(),
        protocol_version: String::new(),
        firmware_name: String::new(),
        firmware_version: String::new(),
    }
}

#[test]
fn analog_round_trip_reproduces_written_level() {
    // The status frame addressing pin 15 carries nibble 15 - 14 = 1.
    let status = vec![0xE0 | 1, 0x68, 0x07];
    let mut b = board_reading(status, 20);
    b.analog_write(15, 1000).unwrap();
    assert_eq!(b.pins[15].value, 1000);
    b.pins[15].value = 0;
    b.read_and_decode().unwrap();
    assert_eq!(b.pins[15].value, 1000);
}

#[test]
fn new_runs_the_whole_handshake() {
    let mut script = Vec::new();
    // An unrelated message first: the wait loop must tolerate it.
    script.extend_from_slice(&[0xF9, 2, 5]);
    // Firmware report, name "A".
    script.extend_from_slice(&[0xF0, 0x79, 2, 3, b'A', 0xF7]);
    // Capability response: one pin supporting (0,1) and (1,1).
    script.extend_from_slice(&[0xF0, 0x6C, 0, 1, 1, 1, 0x7F, 0xF7]);
    // Analog mapping: pin 0 not analog-capable.
    script.extend_from_slice(&[0xF0, 0x6A, 0x7F, 0xF7]);

    let b = Board::new(Box::new(ScriptedConnection::new(script))).unwrap();
    assert_eq!(b.protocol_version, "2.5");
    assert_eq!(b.firmware_version, "2.3");
    assert_eq!(b.firmware_name, "A");
    assert_eq!(b.pins.len(), 2);
    assert_eq!(b.pins[1].modes, vec![(0, 1), (1, 1)]);
    assert_eq!(
        b.connection.written_bytes(),
        &vec![
            0xF0, 0x79, 0xF7, // query firmware
            0xF0, 0x6B, 0xF7, // query capabilities
            0xF0, 0x69, 0xF7, // query analog mapping
            0xD0, 0x01, // report digital, port 0
            0xD1, 0x01, // report digital, port 1
        ]
    );
}

#[test]
fn retry_new_runs_the_same_handshake() {
    let mut script = Vec::new();
    script.extend_from_slice(&[0xF0, 0x79, 1, 0, 0xF7]);
    script.extend_from_slice(&[0xF0, 0x6C, 0, 1, 0x7F, 0xF7]);
    script.extend_from_slice(&[0xF0, 0x6A, 0x7F, 0xF7]);
    let b = Board::retry_new(Box::new(ScriptedConnection::new(script))).unwrap();
    assert_eq!(b.firmware_version, "1.0");
    assert_eq!(b.pins.len(), 2);
}

#[test]
fn new_fails_when_the_stream_runs_dry() {
    let script = vec![0xF9, 2, 5];
    let r = Board::new(Box::new(ScriptedConnection::new(script)));
    assert_eq!(r.err(), Some(Error::IoError));
}

#[test]
fn new_aborts_on_a_bad_byte() {
    let script = vec![0x42, 0, 0];
    let r = Board::new(Box::new(ScriptedConnection::new(script)));
    assert_eq!(r.err(), Some(Error::BadByte { byte: 0x42 }));
}

#[test]
fn accessors_reflect_the_fields() {
    let mut b = board_reading(vec![0xF9, 3, 1], 4);
    b.read_and_decode().unwrap();
    assert_eq!(b.pins().len(), 4);
    assert_eq!(b.protocol_version(), "3.1");
    assert_eq!(b.firmware_name(), "");
    assert_eq!(b.firmware_version(), "");
    assert!(b.i2c_data().is_empty());
}

fn set_and_light<F: Firmata>(b: &mut F, pin: i32) -> Result<(), Error> {
    b.set_pin_mode(pin, 1)?;
    b.digital_write(pin, 1)
}

#[test]
fn the_operations_trait_drives_a_board() {
    let mut b = board_reading(Vec::new(), 14);
    set_and_light(&mut b, 13).unwrap();
    assert_eq!(
        b.connection.written_bytes(),
        &vec![0xF4, 13, 1, 0x91, 0x20, 0x00]
    );
}

#[test]
fn version_zero_parts_format_as_zero() {
    let mut b = board_reading(vec![0xF9, 0, 0], 0);
    b.read_and_decode().unwrap();
    assert_eq!(b.protocol_version, "0.0");
}

#[test]
fn description_lists_the_identity() {
    let mut b = board_reading(vec![0xF9, 2, 5], 0);
    b.firmware_name = String::from("A");
    b.firmware_version = String::from("2.3");
    b.read_and_decode().unwrap();
    assert_eq!(
        b.description(),
        "Board { firmware=A, version=2.3, protocol=2.5 }"
    );
}

#[test]
fn scripted_connection_reports_unread_bytes() {
    let mut b = board_reading(vec![0xF9, 1, 1, 0xF9, 1, 2], 0);
    assert_eq!(b.connection.unread_bytes().len(), 6);
    b.read_and_decode().unwrap();
    assert_eq!(b.connection.unread_bytes(), &vec![0xF9, 1, 2]);
}
