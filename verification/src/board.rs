//! The board facade: owns the transport, the pin list, the I2C reply
//! queue and the device identity, and exposes every protocol operation.

use vstd::prelude::*;
use vstd::string::StringExecFns;

use crate::connection::Connection;
use crate::constants::ANALOG_MAPPING_QUERY;
use crate::constants::ANALOG_MESSAGE;
use crate::constants::CAPABILITY_QUERY;
use crate::constants::END_SYSEX;
use crate::constants::I2C_CONFIG;
use crate::constants::I2C_READ;
use crate::constants::DIGITAL_MESSAGE;
use crate::constants::I2C_REQUEST;
use crate::constants::I2C_WRITE;
use crate::constants::REPORT_ANALOG;
use crate::constants::REPORT_DIGITAL;
use crate::constants::REPORT_FIRMWARE;
use crate::constants::SET_PIN_MODE;
use crate::constants::START_SYSEX;
use crate::constants::SYSEX_REALTIME;
use crate::error::Error;
use crate::frames::analog_write_frame;
use crate::frames::digital_write_frame;
use crate::frames::i2c_config_frame;
use crate::frames::i2c_read_frame;
use crate::frames::i2c_write_frame;
use crate::frames::port_value;
use crate::frames::port_value_upto;
use crate::frames::query_analog_mapping_frame;
use crate::frames::query_capabilities_frame;
use crate::frames::query_firmware_frame;
use crate::frames::report_analog_frame;
use crate::frames::report_digital_frame;
use crate::frames::set_pin_mode_frame;
use crate::frames::seven_bit_pairs;
use crate::types::I2CReply;
use crate::types::I2CReplyView;
use crate::types::Pin;
use crate::types::PinView;

verus! {

/// The mathematical value of a board's protocol state: everything the
/// decoder mutates and the encoder reads, apart from the transport.
#[verifier::ext_equal]
pub struct StateView {
    pub pins: Seq<PinView>,
    pub i2c_data: Seq<I2CReplyView>,
    pub protocol_version: Seq<char>,
    pub firmware_name: Seq<char>,
    pub firmware_version: Seq<char>,
}

/// `s` with the active mode of one pin replaced.
pub open spec fn with_pin_mode(s: StateView, pin: int, mode: u8) -> StateView {
    StateView {
        pins: s.pins.update(
            pin,
            PinView {
                mode: mode,
                resolution: s.pins[pin].resolution,
                modes: s.pins[pin].modes,
                value: s.pins[pin].value,
            },
        ),
        ..s
    }
}

/// `s` with the stored value of one pin replaced.
pub open spec fn with_pin_value(s: StateView, pin: int, value: i32) -> StateView {
    StateView {
        pins: s.pins.update(
            pin,
            PinView {
                mode: s.pins[pin].mode,
                resolution: s.pins[pin].resolution,
                modes: s.pins[pin].modes,
                value: value,
            },
        ),
        ..s
    }
}

/// A device reachable over a transport, together with the model this host
/// keeps of it: pins, pending I2C replies and firmware identity.
pub struct Board<C: Connection> {
    /// The transport the board is driven over; owned exclusively.
    pub connection: C,
    /// One entry per addressable pin.
    pub pins: Vec<Pin>,
    /// Decoded I2C replies, oldest first, awaiting consumption.
    pub i2c_data: Vec<I2CReply>,
    /// The protocol version the device reported, empty until decoded.
    pub protocol_version: String,
    /// The firmware name the device reported, empty until decoded.
    pub firmware_name: String,
    /// The firmware version the device reported, empty until decoded.
    pub firmware_version: String,
}

impl<C: Connection> Board<C> {
    /// The board's protocol state, as a mathematical value.
    pub open spec fn state(&self) -> StateView {
        StateView {
            pins: self.pins@.map_values(|p: Pin| p@),
            i2c_data: self.i2c_data@.map_values(|r: I2CReply| r@),
            protocol_version: self.protocol_version@,
            firmware_name: self.firmware_name@,
            firmware_version: self.firmware_version@,
        }
    }

    /// Writes one frame on the transport.
    fn write(&mut self, buf: &[u8]) -> (r: Result<(), Error>)
        ensures
            final(self).state() == old(self).state(),
            final(self).connection.to_read() == old(self).connection.to_read(),
            r is Ok ==> final(self).connection.written() == old(self).connection.written()
                + buf@,
            r is Err ==> r->Err_0 == Error::IoError && final(self).connection.written() == old(
                self,
            ).connection.written(),
    {
        self.connection.write_all(buf)
    }

    /// Asks the device for its firmware name and version.
    pub fn query_firmware(&mut self) -> (r: Result<(), Error>)
        ensures
            final(self).state() == old(self).state(),
            final(self).connection.to_read() == old(self).connection.to_read(),
            r is Ok ==> final(self).connection.written() == old(self).connection.written()
                + query_firmware_frame(),
            r is Err ==> r->Err_0 == Error::IoError && final(self).connection.written() == old(
                self,
            ).connection.written(),
    {
        let buf: [u8; 3] = [START_SYSEX, REPORT_FIRMWARE, END_SYSEX];
        proof {
            assert(buf@ =~= query_firmware_frame());
        }
        self.write(buf.as_slice())
    }

    /// Asks the device for every pin's supported modes.
    pub fn query_capabilities(&mut self) -> (r: Result<(), Error>)
        ensures
            final(self).state() == old(self).state(),
            final(self).connection.to_read() == old(self).connection.to_read(),
            r is Ok ==> final(self).connection.written() == old(self).connection.written()
                + query_capabilities_frame(),
            r is Err ==> r->Err_0 == Error::IoError && final(self).connection.written() == old(
                self,
            ).connection.written(),
    {
        let buf: [u8; 3] = [START_SYSEX, CAPABILITY_QUERY, END_SYSEX];
        proof {
            assert(buf@ =~= query_capabilities_frame());
        }
        self.write(buf.as_slice())
    }

    /// Asks the device which pins are analog-capable.
    pub fn query_analog_mapping(&mut self) -> (r: Result<(), Error>)
        ensures
            final(self).state() == old(self).state(),
            final(self).connection.to_read() == old(self).connection.to_read(),
            r is Ok ==> final(self).connection.written() == old(self).connection.written()
                + query_analog_mapping_frame(),
            r is Err ==> r->Err_0 == Error::IoError && final(self).connection.written() == old(
                self,
            ).connection.written(),
    {
        let buf: [u8; 3] = [START_SYSEX, ANALOG_MAPPING_QUERY, END_SYSEX];
        proof {
            assert(buf@ =~= query_analog_mapping_frame());
        }
        self.write(buf.as_slice())
    }

    /// Toggles unsolicited digital reporting for a port.
    pub fn report_digital(&mut self, pin: i32, state: i32) -> (r: Result<(), Error>)
        ensures
            final(self).state() == old(self).state(),
            final(self).connection.to_read() == old(self).connection.to_read(),
            r is Ok ==> final(self).connection.written() == old(self).connection.written()
                + report_digital_frame(pin, state),
            r is Err ==> r->Err_0 == Error::IoError && final(self).connection.written() == old(
                self,
            ).connection.written(),
    {
        let buf: [u8; 2] = [REPORT_DIGITAL | (pin as u8), state as u8];
        proof {
            assert(buf@ =~= report_digital_frame(pin, state));
        }
        self.write(buf.as_slice())
    }

    /// Toggles unsolicited analog reporting for a pin.
    pub fn report_analog(&mut self, pin: i32, state: i32) -> (r: Result<(), Error>)
        ensures
            final(self).state() == old(self).state(),
            final(self).connection.to_read() == old(self).connection.to_read(),
            r is Ok ==> final(self).connection.written() == old(self).connection.written()
                + report_analog_frame(pin, state),
            r is Err ==> r->Err_0 == Error::IoError && final(self).connection.written() == old(
                self,
            ).connection.written(),
    {
        let buf: [u8; 2] = [REPORT_ANALOG | (pin as u8), state as u8];
        proof {
            assert(buf@ =~= report_analog_frame(pin, state));
        }
        self.write(buf.as_slice())
    }

    /// Sets the mode of a pin, recording it locally and telling the device.
    pub fn set_pin_mode(&mut self, pin: i32, mode: u8) -> (r: Result<(), Error>)
        ensures
            ({
                let pre = *old(self);
                let post = *final(self);
                if 0 <= pin < pre.pins@.len() {
                    post.state() == with_pin_mode(pre.state(), pin as int, mode)
                        && post.connection.to_read() == pre.connection.to_read() && (r is Ok
                        ==> post.connection.written() == pre.connection.written()
                        + set_pin_mode_frame(pin, mode)) && (r is Err ==> r->Err_0
                        == Error::IoError && post.connection.written() == pre.connection.written())
                } else {
                    post == pre && r == Err::<(), Error>(
                        Error::PinOutOfBounds { pin: pin as u8, len: pre.pins@.len() as usize },
                    )
                }
            }),
    {
        let len = self.pins.len();
        if pin < 0 || pin as usize >= len {
            return Err(Error::PinOutOfBounds { pin: pin as u8, len });
        }
        let idx = pin as usize;
        self.pins[idx].mode = mode;
        proof {
            assert(self.pins@.map_values(|p: Pin| p@) =~= with_pin_mode(
                old(self).state(),
                pin as int,
                mode,
            ).pins);
        }
        let buf: [u8; 3] = [SET_PIN_MODE, pin as u8, mode];
        proof {
            assert(buf@ =~= set_pin_mode_frame(pin, mode));
        }
        self.write(buf.as_slice())
    }

    /// Commands an analog (or PWM) level on a pin, recording it locally.
    pub fn analog_write(&mut self, pin: i32, level: i32) -> (r: Result<(), Error>)
        ensures
            ({
                let pre = *old(self);
                let post = *final(self);
                if 0 <= pin < pre.pins@.len() {
                    post.state() == with_pin_value(pre.state(), pin as int, level)
                        && post.connection.to_read() == pre.connection.to_read() && (r is Ok
                        ==> post.connection.written() == pre.connection.written()
                        + analog_write_frame(pin, level)) && (r is Err ==> r->Err_0
                        == Error::IoError && post.connection.written() == pre.connection.written())
                } else {
                    post == pre && r == Err::<(), Error>(
                        Error::PinOutOfBounds { pin: pin as u8, len: pre.pins@.len() as usize },
                    )
                }
            }),
    {
        let len = self.pins.len();
        if pin < 0 || pin as usize >= len {
            return Err(Error::PinOutOfBounds { pin: pin as u8, len });
        }
        let idx = pin as usize;
        self.pins[idx].value = level;
        proof {
            assert(self.pins@.map_values(|p: Pin| p@) =~= with_pin_value(
                old(self).state(),
                pin as int,
                level,
            ).pins);
        }
        let buf: [u8; 3] = [
            ANALOG_MESSAGE | (pin as u8),
            (level as u8) & SYSEX_REALTIME,
            ((level >> 7) as u8) & SYSEX_REALTIME,
        ];
        proof {
            assert(buf@ =~= analog_write_frame(pin, level));
        }
        self.write(buf.as_slice())
    }

    /// Configures the delay between addressing an I2C register and reading it.
    pub fn i2c_config(&mut self, delay: i32) -> (r: Result<(), Error>)
        ensures
            final(self).state() == old(self).state(),
            final(self).connection.to_read() == old(self).connection.to_read(),
            r is Ok ==> final(self).connection.written() == old(self).connection.written()
                + i2c_config_frame(delay),
            r is Err ==> r->Err_0 == Error::IoError && final(self).connection.written() == old(
                self,
            ).connection.written(),
    {
        let buf: [u8; 5] = [
            START_SYSEX,
            I2C_CONFIG,
            (delay as u8) & SYSEX_REALTIME,
            ((delay >> 7) as u8) & SYSEX_REALTIME,
            END_SYSEX,
        ];
        proof {
            assert(buf@ =~= i2c_config_frame(delay));
        }
        self.write(buf.as_slice())
    }

    /// Asks for `size` bytes from the I2C device at `address`.
    pub fn i2c_read(&mut self, address: i32, size: i32) -> (r: Result<(), Error>)
        ensures
            final(self).state() == old(self).state(),
            final(self).connection.to_read() == old(self).connection.to_read(),
            r is Ok ==> final(self).connection.written() == old(self).connection.written()
                + i2c_read_frame(address, size),
            r is Err ==> r->Err_0 == Error::IoError && final(self).connection.written() == old(
                self,
            ).connection.written(),
    {
        let buf: [u8; 7] = [
            START_SYSEX,
            I2C_REQUEST,
            address as u8,
            I2C_READ << 3,
            (size as u8) & SYSEX_REALTIME,
            ((size >> 7) as u8) & SYSEX_REALTIME,
            END_SYSEX,
        ];
        proof {
            assert(buf@ =~= i2c_read_frame(address, size));
        }
        self.write(buf.as_slice())
    }

    /// Writes `data` to the I2C device at `address`, each byte split into
    /// a 7-bit low/high pair.
    pub fn i2c_write(&mut self, address: i32, data: &[u8]) -> (r: Result<(), Error>)
        ensures
            final(self).state() == old(self).state(),
            final(self).connection.to_read() == old(self).connection.to_read(),
            r is Ok ==> final(self).connection.written() == old(self).connection.written()
                + i2c_write_frame(address, data@),
            r is Err ==> r->Err_0 == Error::IoError && final(self).connection.written() == old(
                self,
            ).connection.written(),
    {
        let mut buf: Vec<u8> = Vec::new();
        buf.push(START_SYSEX);
        buf.push(I2C_REQUEST);
        buf.push(address as u8);
        buf.push(I2C_WRITE << 3);
        let ghost head = seq![START_SYSEX, I2C_REQUEST, (address as u8), (I2C_WRITE << 3)];
        proof {
            assert(buf@ =~= head);
        }
        let mut i: usize = 0;
        while i < data.len()
            invariant
                i <= data@.len(),
                buf@ == head + seven_bit_pairs(data@.take(i as int)),
            decreases data@.len() - i,
        {
            let b = data[i];
            buf.push(b & SYSEX_REALTIME);
            buf.push((b >> 7) & SYSEX_REALTIME);
            proof {
                assert(buf@ =~= head + seven_bit_pairs(data@.take(i + 1)));
            }
            i = i + 1;
        }
        proof {
            assert(data@.take(data@.len() as int) =~= data@);
        }
        buf.push(END_SYSEX);
        proof {
            assert(buf@ =~= i2c_write_frame(address, data@));
        }
        self.write(buf.as_slice())
    }

    /// Commands a digital level on a pin: records it, then reports the
    /// whole 8-pin port the pin belongs to, so the siblings' last stored
    /// values ride along unchanged.
    pub fn digital_write(&mut self, pin: i32, level: i32) -> (r: Result<(), Error>)
        ensures
            ({
                let pre = *old(self);
                let post = *final(self);
                if 0 <= pin < pre.pins@.len() {
                    post.state() == with_pin_value(pre.state(), pin as int, level)
                        && post.connection.to_read() == pre.connection.to_read() && (r is Ok
                        ==> post.connection.written() == pre.connection.written()
                        + digital_write_frame(
                        pin as int / 8,
                        port_value(post.state().pins, pin as int / 8),
                    )) && (r is Err ==> r->Err_0 == Error::IoError && post.connection.written()
                        == pre.connection.written())
                } else {
                    post == pre && r == Err::<(), Error>(
                        Error::PinOutOfBounds { pin: pin as u8, len: pre.pins@.len() as usize },
                    )
                }
            }),
    {
        let len = self.pins.len();
        if pin < 0 || pin as usize >= len {
            return Err(Error::PinOutOfBounds { pin: pin as u8, len });
        }
        let idx = pin as usize;
        let port: usize = idx / 8;
        let base: usize = idx - idx % 8;
        proof {
            assert(base == 8 * (port as int)) by (nonlinear_arith)
                requires
                    port == idx / 8,
                    base == idx - idx % 8,
                    idx >= 0,
            ;
        }
        self.pins[idx].value = level;
        proof {
            assert(self.pins@.map_values(|p: Pin| p@) =~= with_pin_value(
                old(self).state(),
                pin as int,
                level,
            ).pins);
        }
        let ghost newpins = self.pins@.map_values(|p: Pin| p@);
        let mut value: i32 = 0;
        let mut i: usize = 0;
        while i < 8
            invariant
                i <= 8,
                base == 8 * (port as int),
                base <= idx < len,
                len == self.pins@.len(),
                newpins == self.pins@.map_values(|p: Pin| p@),
                value == port_value_upto(newpins, port as int, i as int),
            decreases 8 - i,
        {
            if i < len - base {
                let k = base + i;
                if self.pins[k].value != 0 {
                    value = value | (1i32 << (i as u32));
                }
            }
            proof {
                assert(forall|x: i32| #[trigger] (x | 0i32) == x) by (bit_vector);
                assert(value == port_value_upto(newpins, port as int, i + 1));
            }
            i = i + 1;
        }
        let buf: [u8; 3] = [
            DIGITAL_MESSAGE | (port as u8),
            (value as u8) & SYSEX_REALTIME,
            ((value >> 7) as u8) & SYSEX_REALTIME,
        ];
        proof {
            assert(buf@ =~= digital_write_frame(pin as int / 8, value));
        }
        self.write(buf.as_slice())
    }

    /// The one-line summary the board gives of itself.
    pub fn description(&self) -> (r: String)
        ensures
            r@ == "Board { firmware="@ + self.firmware_name@ + ", version="@
                + self.firmware_version@ + ", protocol="@ + self.protocol_version@ + " }"@,
    {
        let mut s = String::from_str("Board { firmware=");
        s.append(self.firmware_name.as_str());
        s.append(", version=");
        s.append(self.firmware_version.as_str());
        s.append(", protocol=");
        s.append(self.protocol_version.as_str());
        s.append(" }");
        s
    }

    /// The pins the board has access to.
    pub fn pins(&self) -> (r: &Vec<Pin>)
        ensures
            r@ == self.pins@,
    {
        &self.pins
    }

    /// The protocol version the device reported, empty until decoded.
    pub fn protocol_version(&self) -> (r: &String)
        ensures
            r@ == self.protocol_version@,
    {
        &self.protocol_version
    }

    /// The firmware name the device reported, empty until decoded.
    pub fn firmware_name(&self) -> (r: &String)
        ensures
            r@ == self.firmware_name@,
    {
        &self.firmware_name
    }

    /// The firmware version the device reported, empty until decoded.
    pub fn firmware_version(&self) -> (r: &String)
        ensures
            r@ == self.firmware_version@,
    {
        &self.firmware_version
    }

    /// The I2C replies decoded so far and not yet consumed, oldest first.
    pub fn i2c_data(&self) -> (r: &Vec<I2CReply>)
        ensures
            r@ == self.i2c_data@,
    {
        &self.i2c_data
    }

    /// Consumes the oldest pending I2C reply, if any; an unconsumed reply
    /// stays queued indefinitely.
    pub fn pop_i2c_reply(&mut self) -> (r: Option<I2CReply>)
        ensures
            old(self).i2c_data@.len() == 0 ==> r is None && *final(self) == *old(self),
            old(self).i2c_data@.len() > 0 ==> ({
                let pre = *old(self);
                let post = *final(self);
                r == Some(pre.i2c_data@[0]) && post.i2c_data@ == pre.i2c_data@.skip(1)
                    && post.connection == pre.connection && post.pins == pre.pins
                    && post.protocol_version == pre.protocol_version && post.firmware_name
                    == pre.firmware_name && post.firmware_version == pre.firmware_version
            }),
    {
        if self.i2c_data.len() == 0 {
            None
        } else {
            let r = self.i2c_data.remove(0);
            proof {
                assert(old(self).i2c_data@.remove(0) =~= old(self).i2c_data@.skip(1));
            }
            Some(r)
        }
    }
}

} // verus!
