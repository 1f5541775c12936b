//! The device-state data model: pins, I2C replies and decoded message tags.

use vstd::prelude::*;

use crate::constants::DEFAULT_ANALOG_RESOLUTION;
use crate::constants::PIN_MODE_ANALOG;

verus! {

/// The tag of one decoded message. The payload, if any, lands in the
/// board's state or its I2C reply queue, not in the tag.
#[derive(Clone, Debug, PartialEq, Eq)]
pub enum Message {
    ProtocolVersion,
    Analog,
    Digital,
    EmptyResponse,
    AnalogMappingResponse,
    CapabilityResponse,
    PinStateResponse,
    ReportFirmware,
    I2CReply,
}

/// The current state and configuration of one addressable pin.
#[derive(Debug)]
pub struct Pin {
    /// Currently configured mode.
    pub mode: u8,
    /// Bit resolution of the active mode.
    pub resolution: u8,
    /// Every (mode, resolution) pair the pin supports; populated only by a
    /// capability response.
    pub modes: Vec<(u8, u8)>,
    /// Last known or last commanded signal value.
    pub value: i32,
}

/// The mathematical value of a [`Pin`].
#[verifier::ext_equal]
pub struct PinView {
    pub mode: u8,
    pub resolution: u8,
    pub modes: Seq<(u8, u8)>,
    pub value: i32,
}

impl View for Pin {
    type V = PinView;

    open spec fn view(&self) -> PinView {
        PinView {
            mode: self.mode,
            resolution: self.resolution,
            modes: self.modes@,
            value: self.value,
        }
    }
}

/// The state assumed for a pin before capabilities have been queried:
/// an analog input at the default resolution, reading zero.
pub open spec fn spec_default_pin() -> PinView {
    PinView {
        mode: PIN_MODE_ANALOG,
        resolution: DEFAULT_ANALOG_RESOLUTION,
        modes: seq![(PIN_MODE_ANALOG, DEFAULT_ANALOG_RESOLUTION)],
        value: 0,
    }
}

impl Default for Pin {
    /// A pin is assumed analog-default until a capability response says more.
    fn default() -> (r: Pin)
        ensures
            r@ == spec_default_pin(),
    {
        let r = Pin {
            mode: PIN_MODE_ANALOG,
            resolution: DEFAULT_ANALOG_RESOLUTION,
            modes: vec![(PIN_MODE_ANALOG, DEFAULT_ANALOG_RESOLUTION)],
            value: 0,
        };
        proof {
            assert(r@.modes =~= spec_default_pin().modes);
        }
        r
    }
}

/// One decoded I2C response, reconstructed from 7-bit byte pairs.
#[derive(Debug)]
pub struct I2CReply {
    pub address: i32,
    pub register: i32,
    pub data: Vec<u8>,
}

/// The mathematical value of an [`I2CReply`].
#[verifier::ext_equal]
pub struct I2CReplyView {
    pub address: i32,
    pub register: i32,
    pub data: Seq<u8>,
}

impl View for I2CReply {
    type V = I2CReplyView;

    open spec fn view(&self) -> I2CReplyView {
        I2CReplyView { address: self.address, register: self.register, data: self.data@ }
    }
}

impl Default for I2CReply {
    fn default() -> (r: I2CReply)
        ensures
            r@.address == 0,
            r@.register == 0,
            r@.data == Seq::<u8>::empty(),
    {
        I2CReply { address: 0, register: 0, data: Vec::new() }
    }
}

} // verus!
