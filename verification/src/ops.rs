//! The board operations as one abstract, contracted surface: client code
//! generic over [`Firmata`] can drive any board without naming the
//! transport, and still gets the full contracts, stated over the three
//! spec views below.

use vstd::prelude::*;

use crate::board::Board;
use crate::board::StateView;
use crate::board::with_pin_mode;
use crate::board::with_pin_value;
use crate::connection::Connection;
use crate::decode::spec_decode;
use crate::decode::spec_frame_len;
use crate::error::Error;
use crate::frames::analog_write_frame;
use crate::frames::digital_write_frame;
use crate::frames::i2c_config_frame;
use crate::frames::i2c_read_frame;
use crate::frames::i2c_write_frame;
use crate::frames::port_value;
use crate::frames::query_analog_mapping_frame;
use crate::frames::query_capabilities_frame;
use crate::frames::query_firmware_frame;
use crate::frames::report_analog_frame;
use crate::frames::report_digital_frame;
use crate::frames::set_pin_mode_frame;
use crate::types::I2CReply;
use crate::types::Message;
use crate::types::Pin;

verus! {

/// Every protocol operation a board offers, with the same contracts the
/// concrete [`Board`] proves: `model` is the device state the host keeps,
/// `sent` the bytes accepted by the transport so far, and `pending` the
/// bytes the transport still has to yield.
pub trait Firmata: Sized {
    /// The device state this host keeps: pins, pending I2C replies and
    /// firmware identity.
    spec fn model(&self) -> StateView;

    /// The bytes every successful write has carried, in order.
    spec fn sent(&self) -> Seq<u8>;

    /// The bytes future reads will yield, in order.
    spec fn pending(&self) -> Seq<u8>;

    /// Write `level` to the analog `pin`.
    fn analog_write(&mut self, pin: i32, level: i32) -> (r: Result<(), Error>)
        ensures
            ({
                let pre = *old(self);
                let post = *final(self);
                if 0 <= pin < pre.model().pins.len() {
                    post.model() == with_pin_value(pre.model(), pin as int, level)
                        && post.pending() == pre.pending() && (r is Ok ==> post.sent()
                        == pre.sent() + analog_write_frame(pin, level)) && (r is Err ==> r->Err_0
                        == Error::IoError && post.sent() == pre.sent())
                } else {
                    post.model() == pre.model() && post.sent() == pre.sent() && post.pending()
                        == pre.pending() && r == Err::<(), Error>(
                        Error::PinOutOfBounds {
                            pin: pin as u8,
                            len: pre.model().pins.len() as usize,
                        },
                    )
                }
            }),
    ;

    /// Write `level` to the digital `pin`, reporting its whole port.
    fn digital_write(&mut self, pin: i32, level: i32) -> (r: Result<(), Error>)
        ensures
            ({
                let pre = *old(self);
                let post = *final(self);
                if 0 <= pin < pre.model().pins.len() {
                    post.model() == with_pin_value(pre.model(), pin as int, level)
                        && post.pending() == pre.pending() && (r is Ok ==> post.sent()
                        == pre.sent() + digital_write_frame(
                        pin as int / 8,
                        port_value(post.model().pins, pin as int / 8),
                    )) && (r is Err ==> r->Err_0 == Error::IoError && post.sent() == pre.sent())
                } else {
                    post.model() == pre.model() && post.sent() == pre.sent() && post.pending()
                        == pre.pending() && r == Err::<(), Error>(
                        Error::PinOutOfBounds {
                            pin: pin as u8,
                            len: pre.model().pins.len() as usize,
                        },
                    )
                }
            }),
    ;

    /// Get the firmware name.
    fn firmware_name(&self) -> (r: &String)
        ensures
            r@ == self.model().firmware_name,
    ;

    /// Get the firmware version.
    fn firmware_version(&self) -> (r: &String)
        ensures
            r@ == self.model().firmware_version,
    ;

    /// Configure the delay between addressing an I2C register and reading
    /// it.
    fn i2c_config(&mut self, delay: i32) -> (r: Result<(), Error>)
        ensures
            final(self).model() == old(self).model(),
            final(self).pending() == old(self).pending(),
            r is Ok ==> final(self).sent() == old(self).sent() + i2c_config_frame(delay),
            r is Err ==> r->Err_0 == Error::IoError && final(self).sent() == old(self).sent(),
    ;

    /// Get the I2C replies decoded so far and not yet consumed.
    fn i2c_data(&self) -> (r: &Vec<I2CReply>)
        ensures
            r@.map_values(|x: I2CReply| x@) == self.model().i2c_data,
    ;

    /// Read `size` bytes from the I2C device at `address`.
    fn i2c_read(&mut self, address: i32, size: i32) -> (r: Result<(), Error>)
        ensures
            final(self).model() == old(self).model(),
            final(self).pending() == old(self).pending(),
            r is Ok ==> final(self).sent() == old(self).sent() + i2c_read_frame(address, size),
            r is Err ==> r->Err_0 == Error::IoError && final(self).sent() == old(self).sent(),
    ;

    /// Write `data` to the I2C device at `address`.
    fn i2c_write(&mut self, address: i32, data: &[u8]) -> (r: Result<(), Error>)
        ensures
            final(self).model() == old(self).model(),
            final(self).pending() == old(self).pending(),
            r is Ok ==> final(self).sent() == old(self).sent() + i2c_write_frame(address, data@),
            r is Err ==> r->Err_0 == Error::IoError && final(self).sent() == old(self).sent(),
    ;

    /// Get the pins the board has access to.
    fn pins(&self) -> (r: &Vec<Pin>)
        ensures
            r@.map_values(|p: Pin| p@) == self.model().pins,
    ;

    /// Get the current protocol version.
    fn protocol_version(&self) -> (r: &String)
        ensures
            r@ == self.model().protocol_version,
    ;

    /// Query the board for available analog pins.
    fn query_analog_mapping(&mut self) -> (r: Result<(), Error>)
        ensures
            final(self).model() == old(self).model(),
            final(self).pending() == old(self).pending(),
            r is Ok ==> final(self).sent() == old(self).sent() + query_analog_mapping_frame(),
            r is Err ==> r->Err_0 == Error::IoError && final(self).sent() == old(self).sent(),
    ;

    /// Query the board for all available capabilities.
    fn query_capabilities(&mut self) -> (r: Result<(), Error>)
        ensures
            final(self).model() == old(self).model(),
            final(self).pending() == old(self).pending(),
            r is Ok ==> final(self).sent() == old(self).sent() + query_capabilities_frame(),
            r is Err ==> r->Err_0 == Error::IoError && final(self).sent() == old(self).sent(),
    ;

    /// Query the board for current firmware and protocol information.
    fn query_firmware(&mut self) -> (r: Result<(), Error>)
        ensures
            final(self).model() == old(self).model(),
            final(self).pending() == old(self).pending(),
            r is Ok ==> final(self).sent() == old(self).sent() + query_firmware_frame(),
            r is Err ==> r->Err_0 == Error::IoError && final(self).sent() == old(self).sent(),
    ;

    /// Read one message off the transport, decode it, apply it, and
    /// return its tag.
    fn read_and_decode(&mut self) -> (r: Result<Message, Error>)
        ensures
            final(self).sent() == old(self).sent(),
            final(self).pending().len() <= old(self).pending().len(),
            r == Err::<Message, Error>(Error::IoError) ==> final(self).model() == old(
                self,
            ).model(),
            r != Err::<Message, Error>(Error::IoError) ==> ({
                let stream = old(self).pending();
                let n = spec_frame_len(stream);
                3 <= n <= stream.len() && final(self).pending() == stream.skip(n) && (
                final(self).model(),
                r,
                ) == spec_decode(old(self).model(), stream.take(n))
            }),
    ;

    /// Set the analog reporting `state` of the pin.
    fn report_analog(&mut self, pin: i32, state: i32) -> (r: Result<(), Error>)
        ensures
            final(self).model() == old(self).model(),
            final(self).pending() == old(self).pending(),
            r is Ok ==> final(self).sent() == old(self).sent() + report_analog_frame(pin, state),
            r is Err ==> r->Err_0 == Error::IoError && final(self).sent() == old(self).sent(),
    ;

    /// Set the digital reporting `state` of the port.
    fn report_digital(&mut self, pin: i32, state: i32) -> (r: Result<(), Error>)
        ensures
            final(self).model() == old(self).model(),
            final(self).pending() == old(self).pending(),
            r is Ok ==> final(self).sent() == old(self).sent() + report_digital_frame(pin, state),
            r is Err ==> r->Err_0 == Error::IoError && final(self).sent() == old(self).sent(),
    ;

    /// Set the `mode` of the pin.
    fn set_pin_mode(&mut self, pin: i32, mode: u8) -> (r: Result<(), Error>)
        ensures
            ({
                let pre = *old(self);
                let post = *final(self);
                if 0 <= pin < pre.model().pins.len() {
                    post.model() == with_pin_mode(pre.model(), pin as int, mode) && post.pending()
                        == pre.pending() && (r is Ok ==> post.sent() == pre.sent()
                        + set_pin_mode_frame(pin, mode)) && (r is Err ==> r->Err_0
                        == Error::IoError && post.sent() == pre.sent())
                } else {
                    post.model() == pre.model() && post.sent() == pre.sent() && post.pending()
                        == pre.pending() && r == Err::<(), Error>(
                        Error::PinOutOfBounds {
                            pin: pin as u8,
                            len: pre.model().pins.len() as usize,
                        },
                    )
                }
            }),
    ;
}

impl<C: Connection> Firmata for Board<C> {
    open spec fn model(&self) -> StateView {
        self.state()
    }

    open spec fn sent(&self) -> Seq<u8> {
        self.connection.written()
    }

    open spec fn pending(&self) -> Seq<u8> {
        self.connection.to_read()
    }

    fn analog_write(&mut self, pin: i32, level: i32) -> (r: Result<(), Error>) {
        Board::analog_write(self, pin, level)
    }

    fn digital_write(&mut self, pin: i32, level: i32) -> (r: Result<(), Error>) {
        Board::digital_write(self, pin, level)
    }

    fn firmware_name(&self) -> (r: &String) {
        Board::firmware_name(self)
    }

    fn firmware_version(&self) -> (r: &String) {
        Board::firmware_version(self)
    }

    fn i2c_config(&mut self, delay: i32) -> (r: Result<(), Error>) {
        Board::i2c_config(self, delay)
    }

    fn i2c_data(&self) -> (r: &Vec<I2CReply>) {
        Board::i2c_data(self)
    }

    fn i2c_read(&mut self, address: i32, size: i32) -> (r: Result<(), Error>) {
        Board::i2c_read(self, address, size)
    }

    fn i2c_write(&mut self, address: i32, data: &[u8]) -> (r: Result<(), Error>) {
        Board::i2c_write(self, address, data)
    }

    fn pins(&self) -> (r: &Vec<Pin>) {
        Board::pins(self)
    }

    fn protocol_version(&self) -> (r: &String) {
        Board::protocol_version(self)
    }

    fn query_analog_mapping(&mut self) -> (r: Result<(), Error>) {
        Board::query_analog_mapping(self)
    }

    fn query_capabilities(&mut self) -> (r: Result<(), Error>) {
        Board::query_capabilities(self)
    }

    fn query_firmware(&mut self) -> (r: Result<(), Error>) {
        Board::query_firmware(self)
    }

    fn read_and_decode(&mut self) -> (r: Result<Message, Error>) {
        Board::read_and_decode(self)
    }

    fn report_analog(&mut self, pin: i32, state: i32) -> (r: Result<(), Error>) {
        Board::report_analog(self, pin, state)
    }

    fn report_digital(&mut self, pin: i32, state: i32) -> (r: Result<(), Error>) {
        Board::report_digital(self, pin, state)
    }

    fn set_pin_mode(&mut self, pin: i32, mode: u8) -> (r: Result<(), Error>) {
        Board::set_pin_mode(self, pin, mode)
    }
}

} // verus!
