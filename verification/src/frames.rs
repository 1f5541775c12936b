//! The exact byte sequences of every outbound frame, as spec functions.
//!
//! Multi-byte values are split into 7-bit bytes, least significant first,
//! each masked with `0x7F`, because the protocol reserves the top bit of
//! every in-frame byte as a framing signal.

use vstd::prelude::*;

use crate::constants::ANALOG_MAPPING_QUERY;
use crate::constants::ANALOG_MESSAGE;
use crate::constants::CAPABILITY_QUERY;
use crate::constants::DIGITAL_MESSAGE;
use crate::constants::END_SYSEX;
use crate::constants::I2C_CONFIG;
use crate::constants::I2C_READ;
use crate::constants::I2C_REQUEST;
use crate::constants::I2C_WRITE;
use crate::constants::REPORT_ANALOG;
use crate::constants::REPORT_DIGITAL;
use crate::constants::REPORT_FIRMWARE;
use crate::constants::SET_PIN_MODE;
use crate::constants::START_SYSEX;
use crate::types::PinView;

verus! {

/// The low seven bits of a value, as the wire carries them.
pub open spec fn low7(v: i32) -> u8 {
    (v as u8) & 0x7F
}

/// Bits seven to thirteen of a value, as the wire carries them.
pub open spec fn high7(v: i32) -> u8 {
    ((v >> 7) as u8) & 0x7F
}

/// The three bytes commanding an analog level on a pin.
pub open spec fn analog_write_frame(pin: i32, level: i32) -> Seq<u8> {
    seq![ANALOG_MESSAGE | (pin as u8), low7(level), high7(level)]
}

/// The three bytes reporting the value of a whole digital port.
pub open spec fn digital_write_frame(port: int, value: i32) -> Seq<u8> {
    seq![DIGITAL_MESSAGE | (port as u8), low7(value), high7(value)]
}

/// The wire value of a digital port: bit `i` of the result is set exactly
/// when pin `8 * port + i` exists and last held a non-zero value, for the
/// low `k` bits.
pub open spec fn port_value_upto(pins: Seq<PinView>, port: int, k: int) -> i32
    decreases k,
{
    if k <= 0 {
        0
    } else {
        port_value_upto(pins, port, k - 1) | (
        if 8 * port + (k - 1) < pins.len() && pins[8 * port + (k - 1)].value != 0 {
            1i32 << (((k - 1) as usize) as u32)
        } else {
            0
        })
    }
}

/// The wire value of a digital port, over its eight pins.
pub open spec fn port_value(pins: Seq<PinView>, port: int) -> i32 {
    port_value_upto(pins, port, 8)
}

/// The three bytes setting a pin's mode.
pub open spec fn set_pin_mode_frame(pin: i32, mode: u8) -> Seq<u8> {
    seq![SET_PIN_MODE, pin as u8, mode]
}

/// The two bytes toggling unsolicited digital reporting.
pub open spec fn report_digital_frame(pin: i32, state: i32) -> Seq<u8> {
    seq![REPORT_DIGITAL | (pin as u8), state as u8]
}

/// The two bytes toggling unsolicited analog reporting.
pub open spec fn report_analog_frame(pin: i32, state: i32) -> Seq<u8> {
    seq![REPORT_ANALOG | (pin as u8), state as u8]
}

/// The extended frame asking for firmware identity.
pub open spec fn query_firmware_frame() -> Seq<u8> {
    seq![START_SYSEX, REPORT_FIRMWARE, END_SYSEX]
}

/// The extended frame asking for every pin's capabilities.
pub open spec fn query_capabilities_frame() -> Seq<u8> {
    seq![START_SYSEX, CAPABILITY_QUERY, END_SYSEX]
}

/// The extended frame asking which pins are analog-capable.
pub open spec fn query_analog_mapping_frame() -> Seq<u8> {
    seq![START_SYSEX, ANALOG_MAPPING_QUERY, END_SYSEX]
}

/// The extended frame configuring the I2C read delay.
pub open spec fn i2c_config_frame(delay: i32) -> Seq<u8> {
    seq![START_SYSEX, I2C_CONFIG, low7(delay), high7(delay), END_SYSEX]
}

/// The extended frame requesting a read of `size` bytes from an I2C device.
pub open spec fn i2c_read_frame(address: i32, size: i32) -> Seq<u8> {
    seq![
        START_SYSEX,
        I2C_REQUEST,
        address as u8,
        I2C_READ << 3,
        low7(size),
        high7(size),
        END_SYSEX,
    ]
}

/// Data bytes split into 7-bit low/high pairs, least significant first.
pub open spec fn seven_bit_pairs(data: Seq<u8>) -> Seq<u8> {
    Seq::new(
        2 * data.len(),
        |i: int|
            if i % 2 == 0 {
                data[i / 2] & 0x7F
            } else {
                (data[i / 2] >> 7) & 0x7F
            },
    )
}

/// The extended frame writing `data` to an I2C device.
pub open spec fn i2c_write_frame(address: i32, data: Seq<u8>) -> Seq<u8> {
    seq![START_SYSEX, I2C_REQUEST, address as u8, I2C_WRITE << 3] + seven_bit_pairs(data)
        + seq![END_SYSEX]
}

} // verus!
