//! The fixed vocabulary of the wire protocol: opcodes, frame markers and
//! pin-mode identifiers.

use vstd::prelude::*;

verus! {

/// Reports the protocol version: two payload bytes, major then minor.
pub const REPORT_VERSION: u8 = 0xF9;
/// First opcode of a digital port update; the low nibble is the port.
pub const DIGITAL_MESSAGE: u8 = 0x90;
/// Last opcode of a digital port update.
pub const DIGITAL_MESSAGE_BOUND: u8 = 0x9F;
/// First opcode of an analog value update; the low nibble is the pin offset.
pub const ANALOG_MESSAGE: u8 = 0xE0;
/// Last opcode of an analog value update.
pub const ANALOG_MESSAGE_BOUND: u8 = 0xEF;
/// Sets a pin's mode: payload is the pin then the mode.
pub const SET_PIN_MODE: u8 = 0xF4;
/// Toggles unsolicited digital reporting; the low nibble addresses the port.
pub const REPORT_DIGITAL: u8 = 0xD0;
/// Toggles unsolicited analog reporting; the low nibble addresses the pin.
pub const REPORT_ANALOG: u8 = 0xC0;
/// Opens an extended (variable-length) frame.
pub const START_SYSEX: u8 = 0xF0;
/// Closes an extended frame.
pub const END_SYSEX: u8 = 0xF7;
/// Asks which pins are analog-capable.
pub const ANALOG_MAPPING_QUERY: u8 = 0x69;
/// Answers an analog mapping query, one byte per pin.
pub const ANALOG_MAPPING_RESPONSE: u8 = 0x6A;
/// Asks for every pin's supported modes.
pub const CAPABILITY_QUERY: u8 = 0x6B;
/// Answers a capability query with (mode, resolution) pairs per pin.
pub const CAPABILITY_RESPONSE: u8 = 0x6C;
/// Asks for one pin's current state.
pub const PIN_STATE_QUERY: u8 = 0x6D;
/// Answers a pin state query.
pub const PIN_STATE_RESPONSE: u8 = 0x6E;
/// Reports firmware version and name.
pub const REPORT_FIRMWARE: u8 = 0x79;
/// Carries an I2C read or write request.
pub const I2C_REQUEST: u8 = 0x76;
/// Carries the data read from an I2C device.
pub const I2C_REPLY: u8 = 0x77;
/// Configures the delay for I2C devices.
pub const I2C_CONFIG: u8 = 0x78;
/// I2C request mode nibble for a write, shifted left by three in the frame.
pub const I2C_WRITE: u8 = 0x00;
/// I2C request mode nibble for a read, shifted left by three in the frame.
pub const I2C_READ: u8 = 0x01;
/// Mask keeping the low seven bits of an in-frame byte.
pub const SYSEX_REALTIME: u8 = 0x7F;

/// Pin mode: digital input.
pub const PIN_MODE_INPUT: u8 = 0;
/// Pin mode: digital output.
pub const PIN_MODE_OUTPUT: u8 = 1;
/// Pin mode: analog input.
pub const PIN_MODE_ANALOG: u8 = 2;
/// Pin mode: pulse-width modulated output.
pub const PIN_MODE_PWM: u8 = 3;
/// Pin mode: servo control.
pub const PIN_MODE_SERVO: u8 = 4;
/// Pin mode: I2C bus.
pub const PIN_MODE_I2C: u8 = 6;
/// Pin mode: one-wire bus.
pub const PIN_MODE_ONEWIRE: u8 = 7;
/// Pin mode: stepper motor control.
pub const PIN_MODE_STEPPER: u8 = 8;
/// Pin mode: rotary encoder input.
pub const PIN_MODE_ENCODER: u8 = 9;

/// Bit resolution assumed for an analog pin before capabilities are known;
/// ten-bit converters are the usual default.
pub const DEFAULT_ANALOG_RESOLUTION: u8 = 10;

} // verus!
