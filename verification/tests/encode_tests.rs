//! The exact bytes every outbound operation puts on the wire.

use firmata::board::Board;
use firmata::connection::ScriptedConnection;
use firmata::error::Error;
use firmata::types::Pin;

fn board_with_pins(n: usize) -> Board<ScriptedConnection> {
    let mut pins = Vec::new();
    for _ in 0..n {
        pins.push(Pin::default());
    }
    Board {
        connection: ScriptedConnection::new(Vec::new()),
        pins,
        i2c_data: Vec::new(),
        protocol_version: String::new(),
        firmware_name: String::new(),
        firmware_version: String::new(),
    }
}

#[test]
fn analog_write_emits_frame_and_stores_value() {
    let mut b = board_with_pins(16);
    b.analog_write(3, 1000).unwrap();
    assert_eq!(b.pins[3].value, 1000);
    assert_eq!(b.connection.written_bytes(), &vec![0xE3, 0x68, 0x07]);
}

#[test]
fn analog_write_largest_level() {
    let mut b = board_with_pins(16);
    b.analog_write(0, 16383).unwrap();
    assert_eq!(b.connection.written_bytes(), &vec![0xE0, 0x7F, 0x7F]);
}

#[test]
fn analog_write_out_of_bounds() {
    let mut b = board_with_pins(5);
    let r = b.analog_write(20, 1);
    assert_eq!(r, Err(Error::PinOutOfBounds { pin: 20, len: 5 }));
    assert!(b.connection.written_bytes().is_empty());
}

#[test]
fn digital_write_preserves_sibling_values_in_port_byte() {
    let mut b = board_with_pins(8);
    b.pins[1].value = 1;
    b.pins[3].value = 1;
    b.digital_write(2, 1).unwrap();
    // Bits 1 and 3 ride along with the newly written bit 2.
    assert_eq!(b.connection.written_bytes(), &vec![0x90, 0b0000_1110, 0x00]);
    assert_eq!(b.pins[2].value, 1);
    assert_eq!(b.pins[1].value, 1);
    assert_eq!(b.pins[3].value, 1);
}

#[test]
fn digital_write_clears_own_bit() {
    let mut b = board_with_pins(8);
    b.pins[0].value = 1;
    b.pins[2].value = 1;
    b.digital_write(2, 0).unwrap();
    assert_eq!(b.connection.written_bytes(), &vec![0x90, 0b0000_0001, 0x00]);
}

#[test]
fn digital_write_high_bit_lands_in_second_byte() {
    let mut b = board_with_pins(8);
    b.digital_write(7, 1).unwrap();
    assert_eq!(b.connection.written_bytes(), &vec![0x90, 0x00, 0x01]);
}

#[test]
fn digital_write_second_port() {
    let mut b = board_with_pins(16);
    b.digital_write(8, 1).unwrap();
    assert_eq!(b.connection.written_bytes(), &vec![0x91, 0x01, 0x00]);
}

#[test]
fn digital_write_out_of_bounds() {
    let mut b = board_with_pins(4);
    let r = b.digital_write(9, 1);
    assert_eq!(r, Err(Error::PinOutOfBounds { pin: 9, len: 4 }));
}

#[test]
fn set_pin_mode_emits_frame_and_records_mode() {
    let mut b = board_with_pins(14);
    b.set_pin_mode(13, firmata::constants::PIN_MODE_OUTPUT).unwrap();
    assert_eq!(b.pins[13].mode, 1);
    assert_eq!(b.connection.written_bytes(), &vec![0xF4, 13, 1]);
}

#[test]
fn set_pin_mode_out_of_bounds() {
    let mut b = board_with_pins(2);
    let r = b.set_pin_mode(7, 1);
    assert_eq!(r, Err(Error::PinOutOfBounds { pin: 7, len: 2 }));
}

#[test]
fn report_digital_emits_two_bytes() {
    let mut b = board_with_pins(0);
    b.report_digital(1, 1).unwrap();
    assert_eq!(b.connection.written_bytes(), &vec![0xD1, 0x01]);
}

#[test]
fn report_analog_emits_two_bytes() {
    let mut b = board_with_pins(0);
    b.report_analog(2, 0).unwrap();
    assert_eq!(b.connection.written_bytes(), &vec![0xC2, 0x00]);
}

#[test]
fn query_frames() {
    let mut b = board_with_pins(0);
    b.query_firmware().unwrap();
    b.query_capabilities().unwrap();
    b.query_analog_mapping().unwrap();
    assert_eq!(
        b.connection.written_bytes(),
        &vec![0xF0, 0x79, 0xF7, 0xF0, 0x6B, 0xF7, 0xF0, 0x69, 0xF7]
    );
}

#[test]
fn i2c_config_splits_delay_into_seven_bit_pair() {
    let mut b = board_with_pins(0);
    b.i2c_config(1000).unwrap();
    assert_eq!(b.connection.written_bytes(), &vec![0xF0, 0x78, 0x68, 0x07, 0xF7]);
}

#[test]
fn i2c_read_frame() {
    let mut b = board_with_pins(0);
    b.i2c_read(0x40, 300).unwrap();
    assert_eq!(
        b.connection.written_bytes(),
        &vec![0xF0, 0x76, 0x40, 0x08, 0x2C, 0x02, 0xF7]
    );
}

#[test]
fn i2c_write_splits_every_data_byte() {
    let mut b = board_with_pins(0);
    b.i2c_write(0x40, &[0x41, 0x80]).unwrap();
    assert_eq!(
        b.connection.written_bytes(),
        &vec![0xF0, 0x76, 0x40, 0x00, 0x41, 0x00, 0x00, 0x01, 0xF7]
    );
}

#[test]
fn i2c_write_empty_data() {
    let mut b = board_with_pins(0);
    b.i2c_write(0x10, &[]).unwrap();
    assert_eq!(b.connection.written_bytes(), &vec![0xF0, 0x76, 0x10, 0x00, 0xF7]);
}
