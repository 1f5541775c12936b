//! The meaning of every inbound message: a spec-level decoder that says,
//! for each frame, the exact new device state and the returned tag.
//!
//! A frame is either three bytes, or an extended frame `[START_SYSEX, ...,
//! END_SYSEX]` of at least four bytes. The executable decoder on
//! [`crate::board::Board`] is proved to follow [`spec_decode`] exactly.

use vstd::prelude::*;
use vstd::utf8::decode_utf8;
use vstd::utf8::valid_utf8;

use crate::board::Board;
use crate::board::StateView;
use crate::connection::Connection;
use crate::constants::ANALOG_MAPPING_RESPONSE;
use crate::constants::ANALOG_MESSAGE;
use crate::constants::ANALOG_MESSAGE_BOUND;
use crate::constants::CAPABILITY_RESPONSE;
use crate::constants::DEFAULT_ANALOG_RESOLUTION;
use crate::constants::DIGITAL_MESSAGE;
use crate::constants::DIGITAL_MESSAGE_BOUND;
use crate::constants::END_SYSEX;
use crate::constants::I2C_REPLY;
use crate::constants::PIN_MODE_ANALOG;
use crate::constants::PIN_MODE_INPUT;
use crate::constants::PIN_STATE_RESPONSE;
use crate::constants::REPORT_FIRMWARE;
use crate::constants::REPORT_VERSION;
use crate::constants::START_SYSEX;
use crate::error::Error;
use crate::text::utf8_to_string;
use crate::text::version_str;
use crate::text::version_string;
use crate::types::I2CReply;
use crate::types::I2CReplyView;
use crate::types::Message;
use crate::types::Pin;
use crate::types::PinView;
use crate::types::spec_default_pin;

verus! {

/// The shape the read layer guarantees of every frame it hands over.
pub open spec fn frame_wf(buf: Seq<u8>) -> bool {
    buf.len() >= 3 && (buf[0] == START_SYSEX ==> buf.len() >= 4 && buf.last() == END_SYSEX)
}

/// The offset of the first terminator byte at or after offset `i`, or a
/// negative value when the stream holds none.
pub open spec fn first_end_from(stream: Seq<u8>, i: int) -> int
    decreases stream.len() - i,
{
    if i < 0 || i >= stream.len() {
        -1
    } else if stream[i] == END_SYSEX {
        i
    } else {
        first_end_from(stream, i + 1)
    }
}

/// How many leading bytes of the stream the next frame takes: three, or —
/// for an extended frame — everything through the first terminator at or
/// after offset three. Negative when the stream ends first.
pub open spec fn spec_frame_len(stream: Seq<u8>) -> int {
    if stream.len() < 3 {
        -1
    } else if stream[0] != START_SYSEX {
        3
    } else if first_end_from(stream, 3) < 0 {
        -1
    } else {
        first_end_from(stream, 3) + 1
    }
}

/// The first terminator at or after `i` is the one at `k`, there being
/// none in between.
pub proof fn lemma_first_end_at(stream: Seq<u8>, i: int, k: int)
    requires
        0 <= i <= k < stream.len(),
        stream[k] == END_SYSEX,
        forall|t: int| i <= t < k ==> stream[t] != END_SYSEX,
    ensures
        first_end_from(stream, i) == k,
    decreases k - i,
{
    if i < k {
        lemma_first_end_at(stream, i + 1, k);
    }
}

/// A 14-bit value reassembled from its 7-bit low and high halves.
pub open spec fn combine7(lo: u8, hi: u8) -> i32 {
    (lo as i32) | ((hi as i32) << 7)
}

/// A data byte reassembled from a 7-bit pair, as the wire-level decoder
/// keeps it: only the low eight bits survive.
pub open spec fn byte_pair(lo: u8, hi: u8) -> u8 {
    lo | (hi << 7)
}

/// An analog value update: stores the value if the pin exists, and is
/// silently ignored otherwise — the device may report pins the host has
/// not enumerated yet.
pub open spec fn analog_update(s: StateView, pin: int, value: i32) -> StateView {
    if pin < s.pins.len() {
        StateView {
            pins: s.pins.update(
                pin,
                PinView {
                    mode: s.pins[pin].mode,
                    resolution: s.pins[pin].resolution,
                    modes: s.pins[pin].modes,
                    value: value,
                },
            ),
            ..s
        }
    } else {
        s
    }
}

/// The pin list after the first `k` pins of a digital port update.
pub open spec fn digital_pins_upto(pins: Seq<PinView>, port: int, value: i32, k: int) -> Seq<
    PinView,
> {
    Seq::new(
        pins.len(),
        |j: int|
            if 8 * port <= j < 8 * port + k && pins[j].mode == PIN_MODE_INPUT {
                PinView {
                    mode: pins[j].mode,
                    resolution: pins[j].resolution,
                    modes: pins[j].modes,
                    value: (value >> (((j - 8 * port) as usize) as u32)) & 0x01,
                }
            } else {
                pins[j]
            },
    )
}

/// A digital port update: each of the port's eight pins that exists and is
/// in input mode takes its bit of the port value; every other pin is left
/// untouched, though the port byte carries its bit too.
pub open spec fn digital_update(s: StateView, port: int, value: i32) -> StateView {
    StateView { pins: digital_pins_upto(s.pins, port, value, 8), ..s }
}

/// The pin list after an analog mapping sweep of the payload bytes below
/// offset `k`.
pub open spec fn mapping_pins_upto(pins: Seq<PinView>, buf: Seq<u8>, k: int) -> Seq<PinView> {
    Seq::new(
        pins.len(),
        |j: int|
            if j + 2 < k && buf[j + 2] != 127 {
                PinView {
                    mode: PIN_MODE_ANALOG,
                    resolution: DEFAULT_ANALOG_RESOLUTION,
                    modes: seq![(PIN_MODE_ANALOG, DEFAULT_ANALOG_RESOLUTION)],
                    value: pins[j].value,
                }
            } else {
                pins[j]
            },
    )
}

/// Where an analog mapping sweep stops: the frame end or the pin list's
/// end, whichever comes first.
pub open spec fn mapping_upper(s: StateView, buf: Seq<u8>) -> int {
    if buf.len() - 1 <= s.pins.len() + 2 {
        buf.len() - 1
    } else {
        s.pins.len() + 2int
    }
}

/// An analog mapping response: payload byte `i` (from offset two) speaks
/// of pin `i - 2`; any value but `0x7F` marks that pin analog-capable.
pub open spec fn analog_mapping_update(s: StateView, buf: Seq<u8>) -> StateView {
    StateView { pins: mapping_pins_upto(s.pins, buf, mapping_upper(s, buf)), ..s }
}

/// The pin a capability response describes: its supported (mode,
/// resolution) pairs, active mode and resolution defaulting to the first
/// pair listed; a pin with no pairs falls back to the analog default.
pub open spec fn capability_pin(acc: Seq<(u8, u8)>) -> PinView {
    if acc.len() == 0 {
        spec_default_pin()
    } else {
        PinView { mode: acc[0].0, resolution: acc[0].1, modes: acc, value: 0 }
    }
}

/// The pin list a capability response rebuilds, read from offset `i` with
/// `acc` the pairs of the pin under construction and `pins` those already
/// complete. A `0x7F` sentinel closes a pin; any other byte pairs with its
/// successor as (mode, resolution).
pub open spec fn capability_pins(
    buf: Seq<u8>,
    i: int,
    acc: Seq<(u8, u8)>,
    pins: Seq<PinView>,
) -> Seq<PinView>
    decreases buf.len() - i,
{
    if i >= buf.len() - 1 {
        pins
    } else if buf[i] == 127 {
        capability_pins(buf, i + 1, Seq::empty(), pins.push(capability_pin(acc)))
    } else {
        capability_pins(buf, i + 2, acc.push((buf[i], buf[i + 1])), pins)
    }
}

/// The data bytes of an I2C reply, reassembled pairwise from offset `i`
/// until the frame end or an early terminator byte.
pub open spec fn i2c_data_rest(buf: Seq<u8>, i: int) -> Seq<u8>
    decreases buf.len() - i,
{
    if i >= buf.len() - 1 || buf[i] == END_SYSEX {
        Seq::empty()
    } else {
        seq![byte_pair(buf[i], buf[i + 1])] + i2c_data_rest(buf, i + 2)
    }
}

/// The reply an I2C frame carries: 7-bit address pair, 7-bit register
/// pair, then data pairs until the frame end.
pub open spec fn i2c_reply_of(buf: Seq<u8>) -> I2CReplyView {
    I2CReplyView {
        address: combine7(buf[2], buf[3]),
        register: combine7(buf[4], buf[5]),
        data: seq![byte_pair(buf[6], buf[7])] + i2c_data_rest(buf, 8),
    }
}

/// A pin state response with a state payload: the pin, if it exists,
/// takes the reported mode and value; its supported modes are not touched,
/// only a capability response rewrites those.
pub open spec fn pin_state_update(s: StateView, pin: int, mode: u8, value: u8) -> StateView {
    if pin < s.pins.len() {
        StateView {
            pins: s.pins.update(
                pin,
                PinView {
                    mode: mode,
                    resolution: s.pins[pin].resolution,
                    modes: s.pins[pin].modes,
                    value: value as i32,
                },
            ),
            ..s
        }
    } else {
        s
    }
}

/// What a firmware report does: bytes two and three become the version;
/// any bytes before the terminator become the name, whose decode failure
/// is a hard error (the version keeps the value just stored).
pub open spec fn spec_decode_firmware(s: StateView, buf: Seq<u8>) -> (StateView, Result<
    Message,
    Error,
>) {
    if buf.len() < 5 {
        (s, Err(Error::MessageTooShort))
    } else {
        let s1 = StateView { firmware_version: version_str(buf[2], buf[3]), ..s };
        if buf.len() > 5 {
            let name = buf.subrange(4, buf.len() - 1);
            if valid_utf8(name) {
                (
                    StateView { firmware_name: decode_utf8(name), ..s1 },
                    Ok(Message::ReportFirmware),
                )
            } else {
                (s1, Err(Error::Utf8Error))
            }
        } else {
            (s1, Ok(Message::ReportFirmware))
        }
    }
}

/// What an extended frame does, by its command byte.
pub open spec fn spec_decode_sysex(s: StateView, buf: Seq<u8>) -> (StateView, Result<
    Message,
    Error,
>) {
    let cmd = buf[1];
    if cmd == END_SYSEX {
        (s, Ok(Message::EmptyResponse))
    } else if cmd == ANALOG_MAPPING_RESPONSE {
        (analog_mapping_update(s, buf), Ok(Message::AnalogMappingResponse))
    } else if cmd == CAPABILITY_RESPONSE {
        (
            StateView {
                pins: capability_pins(buf, 2, Seq::empty(), seq![spec_default_pin()]),
                ..s
            },
            Ok(Message::CapabilityResponse),
        )
    } else if cmd == REPORT_FIRMWARE {
        spec_decode_firmware(s, buf)
    } else if cmd == I2C_REPLY {
        if buf.len() < 8 {
            (s, Err(Error::MessageTooShort))
        } else {
            (
                StateView { i2c_data: s.i2c_data.push(i2c_reply_of(buf)), ..s },
                Ok(Message::I2CReply),
            )
        }
    } else if cmd == PIN_STATE_RESPONSE {
        if buf[3] == END_SYSEX {
            (s, Ok(Message::PinStateResponse))
        } else {
            (pin_state_update(s, buf[2] as int, buf[3], buf[4]), Ok(Message::PinStateResponse))
        }
    } else {
        (s, Err(Error::UnknownSysEx { code: cmd }))
    }
}

/// What one whole frame does to the device state, and the tag or error it
/// yields. Dispatches on the first byte: exact matches for the version
/// report and extended frames, range matches for analog and digital
/// updates, and a bad-byte error for everything else.
pub open spec fn spec_decode(s: StateView, buf: Seq<u8>) -> (StateView, Result<Message, Error>)
    recommends
        frame_wf(buf),
{
    let b0 = buf[0];
    if b0 == REPORT_VERSION {
        (
            StateView { protocol_version: version_str(buf[1], buf[2]), ..s },
            Ok(Message::ProtocolVersion),
        )
    } else if ANALOG_MESSAGE <= b0 <= ANALOG_MESSAGE_BOUND {
        (
            analog_update(s, ((b0 & 0x0F) + 14) as int, combine7(buf[1], buf[2])),
            Ok(Message::Analog),
        )
    } else if DIGITAL_MESSAGE <= b0 <= DIGITAL_MESSAGE_BOUND {
        (digital_update(s, (b0 & 0x0F) as int, combine7(buf[1], buf[2])), Ok(Message::Digital))
    } else if b0 == START_SYSEX {
        spec_decode_sysex(s, buf)
    } else {
        (s, Err(Error::BadByte { byte: b0 }))
    }
}

impl<C: Connection> Board<C> {
    /// Applies a digital port update: bit `i` of `value` lands in pin
    /// `8 * port + i` where that pin exists and is in input mode.
    fn apply_digital(&mut self, port: u8, value: i32)
        ensures
            final(self).connection == old(self).connection,
            final(self).state() == digital_update(old(self).state(), port as int, value),
    {
        let ghost orig = self.pins@.map_values(|p: Pin| p@);
        let mut i: usize = 0;
        proof {
            assert(orig =~= digital_pins_upto(orig, port as int, value, 0));
        }
        while i < 8
            invariant
                i <= 8,
                orig == old(self).pins@.map_values(|p: Pin| p@),
                orig.len() == self.pins@.len(),
                self.pins@.map_values(|p: Pin| p@) == digital_pins_upto(
                    orig,
                    port as int,
                    value,
                    i as int,
                ),
                self.connection == old(self).connection,
                self.i2c_data == old(self).i2c_data,
                self.protocol_version == old(self).protocol_version,
                self.firmware_name == old(self).firmware_name,
                self.firmware_version == old(self).firmware_version,
            decreases 8 - i,
        {
            let k = 8 * (port as usize) + i;
            if k < self.pins.len() {
                if self.pins[k].mode == PIN_MODE_INPUT {
                    self.pins[k].value = (value >> (i as u32)) & 0x01;
                }
            }
            proof {
                let cur = self.pins@.map_values(|p: Pin| p@);
                let prev = digital_pins_upto(orig, port as int, value, i as int);
                let tgt = digital_pins_upto(orig, port as int, value, i + 1);
                let pt = 8 * (port as int);
                assert forall|j: int| 0 <= j < cur.len() implies cur[j] == tgt[j] by {
                    if j == pt + i {
                        assert(prev[j] == orig[j]);
                        if orig[j].mode == PIN_MODE_INPUT {
                            assert(j < self.pins@.len());
                            assert(cur[j].value == (value >> (i as u32)) & 0x01);
                            assert(((j - pt) as usize) as u32 == i as u32);
                            assert(tgt[j].value == (value >> (i as u32)) & 0x01);
                            assert(cur[j] =~= tgt[j]);
                        } else {
                            assert(cur[j] == prev[j]);
                            assert(tgt[j] == orig[j]);
                            assert(cur[j] =~= tgt[j]);
                        }
                    } else {
                        assert(cur[j] == prev[j]);
                        assert(tgt[j] == prev[j]);
                        assert(cur[j] =~= tgt[j]);
                    }
                }
                assert(cur =~= tgt);
            }
            i = i + 1;
        }
        proof {
            assert(final(self).state() =~= digital_update(old(self).state(), port as int, value));
        }
    }

    /// Applies an analog mapping response to the existing pin list.
    fn apply_analog_mapping(&mut self, buf: &Vec<u8>)
        requires
            buf@.len() >= 4,
        ensures
            final(self).connection == old(self).connection,
            final(self).state() == analog_mapping_update(old(self).state(), buf@),
    {
        let pl = self.pins.len();
        let bl = buf.len() - 1;
        let upper: usize = if pl >= bl {
            bl
        } else if pl + 2 <= bl {
            pl + 2
        } else {
            bl
        };
        proof {
            assert(upper as int == mapping_upper(old(self).state(), buf@));
        }
        let ghost orig = self.pins@.map_values(|p: Pin| p@);
        let mut i: usize = 2;
        proof {
            assert(orig =~= mapping_pins_upto(orig, buf@, 2));
        }
        while i < upper
            invariant
                2 <= i <= upper,
                upper <= buf@.len() - 1,
                upper <= orig.len() + 2,
                orig == old(self).pins@.map_values(|p: Pin| p@),
                orig.len() == self.pins@.len(),
                self.pins@.map_values(|p: Pin| p@) == mapping_pins_upto(orig, buf@, i as int),
                self.connection == old(self).connection,
                self.i2c_data == old(self).i2c_data,
                self.protocol_version == old(self).protocol_version,
                self.firmware_name == old(self).firmware_name,
                self.firmware_version == old(self).firmware_version,
            decreases upper - i,
        {
            if buf[i] != 127u8 {
                let j = i - 2;
                self.pins[j].mode = PIN_MODE_ANALOG;
                self.pins[j].resolution = DEFAULT_ANALOG_RESOLUTION;
                self.pins[j].modes = vec![(PIN_MODE_ANALOG, DEFAULT_ANALOG_RESOLUTION)];
            }
            proof {
                let cur = self.pins@.map_values(|p: Pin| p@);
                let prev = mapping_pins_upto(orig, buf@, i as int);
                let tgt = mapping_pins_upto(orig, buf@, i + 1);
                assert forall|j: int| 0 <= j < cur.len() implies cur[j] == tgt[j] by {
                    if j == i - 2 && buf@[i as int] != 127 {
                        assert(prev[j] == orig[j]);
                        assert(cur[j].modes =~= tgt[j].modes);
                        assert(cur[j].value == orig[j].value);
                        assert(cur[j] =~= tgt[j]);
                    } else {
                        assert(cur[j] == prev[j]);
                        assert(tgt[j] == prev[j]);
                        assert(cur[j] =~= tgt[j]);
                    }
                }
                assert(cur =~= tgt);
            }
            i = i + 1;
        }
        proof {
            assert(mapping_pins_upto(orig, buf@, i as int) =~= mapping_pins_upto(
                orig,
                buf@,
                mapping_upper(old(self).state(), buf@),
            ));
            assert(final(self).state() =~= analog_mapping_update(old(self).state(), buf@));
        }
    }

    /// Rebuilds the whole pin list from a capability response. Pin zero is
    /// a reserved placeholder.
    fn apply_capability(&mut self, buf: &Vec<u8>)
        requires
            buf@.len() >= 4,
        ensures
            final(self).connection == old(self).connection,
            final(self).state() == (StateView {
                pins: capability_pins(buf@, 2, Seq::empty(), seq![spec_default_pin()]),
                ..old(self).state()
            }),
    {
        self.pins = Vec::new();
        self.pins.push(Pin::default());
        let mut modes: Vec<(u8, u8)> = Vec::new();
        let mut i: usize = 2;
        proof {
            assert(self.pins@.map_values(|p: Pin| p@) =~= seq![spec_default_pin()]);
            assert(modes@ =~= Seq::<(u8, u8)>::empty());
        }
        while i < buf.len() - 1
            invariant
                2 <= i,
                buf@.len() >= 4,
                capability_pins(buf@, i as int, modes@, self.pins@.map_values(|p: Pin| p@))
                    == capability_pins(buf@, 2, Seq::empty(), seq![spec_default_pin()]),
                self.connection == old(self).connection,
                self.i2c_data == old(self).i2c_data,
                self.protocol_version == old(self).protocol_version,
                self.firmware_name == old(self).firmware_name,
                self.firmware_version == old(self).firmware_version,
            decreases buf@.len() - i,
        {
            let ghost pinsv0 = self.pins@.map_values(|p2: Pin| p2@);
            let ghost modes0 = modes@;
            if buf[i] == 127u8 {
                let m = modes;
                modes = Vec::new();
                let p: Pin = if m.len() == 0 {
                    Pin::default()
                } else {
                    Pin { mode: m[0].0, resolution: m[0].1, modes: m, value: 0 }
                };
                proof {
                    assert(p@ =~= capability_pin(modes0));
                }
                self.pins.push(p);
                proof {
                    assert(modes@ =~= Seq::<(u8, u8)>::empty());
                    assert(self.pins@.map_values(|p2: Pin| p2@) =~= pinsv0.push(
                        capability_pin(modes0),
                    ));
                    assert(capability_pins(buf@, i as int, modes0, pinsv0)
                        == capability_pins(
                        buf@,
                        i + 1,
                        Seq::empty(),
                        pinsv0.push(capability_pin(modes0)),
                    ));
                }
                i = i + 1;
            } else {
                let pair = (buf[i], buf[i + 1]);
                modes.push(pair);
                proof {
                    assert(modes@ =~= modes0.push((buf@[i as int], buf@[i + 1])));
                    assert(capability_pins(buf@, i as int, modes0, pinsv0)
                        == capability_pins(
                        buf@,
                        i + 2,
                        modes0.push((buf@[i as int], buf@[i + 1])),
                        pinsv0,
                    ));
                }
                i = i + 2;
            }
        }
        proof {
            assert(final(self).state() =~= (StateView {
                pins: capability_pins(buf@, 2, Seq::empty(), seq![spec_default_pin()]),
                ..old(self).state()
            }));
        }
    }

    /// Decodes a firmware report: version, then the optional UTF-8 name.
    fn apply_firmware(&mut self, buf: &Vec<u8>) -> (r: Result<Message, Error>)
        requires
            buf@.len() >= 4,
        ensures
            final(self).connection == old(self).connection,
            (final(self).state(), r) == spec_decode_firmware(old(self).state(), buf@),
    {
        if buf.len() < 5 {
            return Err(Error::MessageTooShort);
        }
        let v = version_string(buf[2], buf[3]);
        self.firmware_version = v;
        if buf.len() > 5 {
            let mut name_bytes: Vec<u8> = Vec::new();
            let mut i: usize = 4;
            while i < buf.len() - 1
                invariant
                    4 <= i <= buf@.len() - 1,
                    buf@.len() > 5,
                    name_bytes@ == buf@.subrange(4, i as int),
                decreases buf@.len() - i,
            {
                name_bytes.push(buf[i]);
                proof {
                    assert(buf@.subrange(4, i as int).push(buf@[i as int]) =~= buf@.subrange(
                        4,
                        i + 1,
                    ));
                }
                i = i + 1;
            }
            match utf8_to_string(name_bytes.as_slice()) {
                Ok(name) => {
                    self.firmware_name = name;
                    proof {
                        assert((final(self).state(), Ok::<Message, Error>(
                            Message::ReportFirmware,
                        )) == spec_decode_firmware(old(self).state(), buf@));
                    }
                    Ok(Message::ReportFirmware)
                },
                Err(e) => Err(e),
            }
        } else {
            Ok(Message::ReportFirmware)
        }
    }

    /// Decodes an I2C reply and queues it, never overwriting earlier ones.
    fn apply_i2c(&mut self, buf: &Vec<u8>)
        requires
            buf@.len() >= 8,
        ensures
            final(self).connection == old(self).connection,
            final(self).state() == (StateView {
                i2c_data: old(self).state().i2c_data.push(i2c_reply_of(buf@)),
                ..old(self).state()
            }),
    {
        let len = buf.len();
        let mut reply = I2CReply {
            address: (buf[2] as i32) | ((buf[3] as i32) << 7),
            register: (buf[4] as i32) | ((buf[5] as i32) << 7),
            data: Vec::new(),
        };
        reply.data.push(buf[6] | (buf[7] << 7));
        let mut i: usize = 8;
        proof {
            assert(reply.data@ =~= seq![byte_pair(buf@[6], buf@[7])]);
        }
        while i < len - 1
            invariant
                8 <= i,
                len == buf@.len(),
                len >= 8,
                reply.address == combine7(buf@[2], buf@[3]),
                reply.register == combine7(buf@[4], buf@[5]),
                reply.data@ + i2c_data_rest(buf@, i as int) == seq![byte_pair(buf@[6], buf@[7])]
                    + i2c_data_rest(buf@, 8),
            ensures
                reply.address == combine7(buf@[2], buf@[3]),
                reply.register == combine7(buf@[4], buf@[5]),
                reply.data@ == seq![byte_pair(buf@[6], buf@[7])] + i2c_data_rest(buf@, 8),
            decreases len - i,
        {
            if buf[i] == END_SYSEX {
                proof {
                    assert(reply.data@ + i2c_data_rest(buf@, i as int) =~= reply.data@);
                }
                break ;
            }
            reply.data.push(buf[i] | (buf[i + 1] << 7));
            proof {
                assert(reply.data@ + i2c_data_rest(buf@, i + 2) =~= seq![
                    byte_pair(buf@[6], buf@[7]),
                ] + i2c_data_rest(buf@, 8));
            }
            i = i + 2;
        }
        proof {
            assert(reply@ =~= i2c_reply_of(buf@));
        }
        self.i2c_data.push(reply);
        proof {
            assert(final(self).state() =~= (StateView {
                i2c_data: old(self).state().i2c_data.push(i2c_reply_of(buf@)),
                ..old(self).state()
            }));
        }
    }

    /// Applies one complete frame to the device state and returns what it
    /// was. The frame must have the shape the read layer guarantees: at
    /// least three bytes, and an extended frame closed by its terminator.
    ///
    /// A first byte that matches no opcode, marker or range fails with
    /// [`Error::BadByte`] carrying that exact byte; an extended frame whose
    /// command byte is unknown fails with [`Error::UnknownSysEx`] likewise.
    /// An analog update addressing a pin past the pin list decodes without
    /// error and without mutation.
    pub fn decode(&mut self, buf: &Vec<u8>) -> (r: Result<Message, Error>)
        requires
            frame_wf(buf@),
        ensures
            final(self).connection == old(self).connection,
            (final(self).state(), r) == spec_decode(old(self).state(), buf@),
    {
        let b0 = buf[0];
        if b0 == REPORT_VERSION {
            let v = version_string(buf[1], buf[2]);
            self.protocol_version = v;
            proof {
                assert(final(self).state() =~= spec_decode(old(self).state(), buf@).0);
            }
            Ok(Message::ProtocolVersion)
        } else if ANALOG_MESSAGE <= b0 && b0 <= ANALOG_MESSAGE_BOUND {
            let pin = ((b0 & 0x0F) as usize) + 14;
            let value: i32 = (buf[1] as i32) | ((buf[2] as i32) << 7);
            if pin < self.pins.len() {
                self.pins[pin].value = value;
                proof {
                    assert(self.pins@.map_values(|p: Pin| p@) =~= analog_update(
                        old(self).state(),
                        pin as int,
                        value,
                    ).pins);
                }
            }
            proof {
                assert(final(self).state() =~= analog_update(
                    old(self).state(),
                    pin as int,
                    value,
                ));
            }
            Ok(Message::Analog)
        } else if DIGITAL_MESSAGE <= b0 && b0 <= DIGITAL_MESSAGE_BOUND {
            let value: i32 = (buf[1] as i32) | ((buf[2] as i32) << 7);
            self.apply_digital(b0 & 0x0F, value);
            Ok(Message::Digital)
        } else if b0 == START_SYSEX {
            let cmd = buf[1];
            if cmd == END_SYSEX {
                Ok(Message::EmptyResponse)
            } else if cmd == ANALOG_MAPPING_RESPONSE {
                self.apply_analog_mapping(buf);
                Ok(Message::AnalogMappingResponse)
            } else if cmd == CAPABILITY_RESPONSE {
                self.apply_capability(buf);
                Ok(Message::CapabilityResponse)
            } else if cmd == REPORT_FIRMWARE {
                self.apply_firmware(buf)
            } else if cmd == I2C_REPLY {
                if buf.len() < 8 {
                    return Err(Error::MessageTooShort);
                }
                self.apply_i2c(buf);
                Ok(Message::I2CReply)
            } else if cmd == PIN_STATE_RESPONSE {
                let pin = buf[2];
                if buf[3] == END_SYSEX {
                    return Ok(Message::PinStateResponse);
                }
                let idx = pin as usize;
                let mode = buf[3];
                let value_byte = buf[4];
                if idx < self.pins.len() {
                    self.pins[idx].mode = mode;
                    self.pins[idx].value = value_byte as i32;
                }
                proof {
                    assert(final(self).state() =~= pin_state_update(
                        old(self).state(),
                        pin as int,
                        mode,
                        value_byte,
                    ));
                }
                Ok(Message::PinStateResponse)
            } else {
                Err(Error::UnknownSysEx { code: cmd })
            }
        } else {
            Err(Error::BadByte { byte: b0 })
        }
    }

    /// Reads one whole frame off the transport: three bytes, then — for an
    /// extended frame — single bytes until the terminator arrives.
    fn read_frame(&mut self) -> (r: Result<Vec<u8>, Error>)
        ensures
            final(self).state() == old(self).state(),
            final(self).connection.written() == old(self).connection.written(),
            r is Err ==> r->Err_0 == Error::IoError && final(self).connection.to_read().len()
                <= old(self).connection.to_read().len(),
            r is Ok ==> ({
                let stream = old(self).connection.to_read();
                let n = spec_frame_len(stream);
                3 <= n <= stream.len() && r->Ok_0@ == stream.take(n) && frame_wf(r->Ok_0@)
                    && final(self).connection.to_read() == stream.skip(n)
            }),
    {
        let ghost stream = self.connection.to_read();
        let mut buf = match self.connection.read_exact(3) {
            Ok(b) => b,
            Err(e) => {
                return Err(e);
            },
        };
        if buf[0] != START_SYSEX {
            proof {
                assert(spec_frame_len(stream) == 3);
                assert(frame_wf(buf@));
            }
            return Ok(buf);
        }
        loop
            invariant_except_break
                forall|t: int| 3 <= t < buf@.len() ==> stream[t] != END_SYSEX,
            invariant
                stream == old(self).connection.to_read(),
                buf@.len() >= 3,
                buf@.len() <= stream.len(),
                buf@ == stream.take(buf@.len() as int),
                stream[0] == START_SYSEX,
                self.connection.to_read() == stream.skip(buf@.len() as int),
                self.connection.written() == old(self).connection.written(),
                self.pins == old(self).pins,
                self.i2c_data == old(self).i2c_data,
                self.protocol_version == old(self).protocol_version,
                self.firmware_name == old(self).firmware_name,
                self.firmware_version == old(self).firmware_version,
            ensures
                buf@.len() >= 4,
                buf@.len() <= stream.len(),
                buf@ == stream.take(buf@.len() as int),
                buf@.last() == END_SYSEX,
                forall|t: int| 3 <= t < buf@.len() - 1 ==> stream[t] != END_SYSEX,
                self.connection.to_read() == stream.skip(buf@.len() as int),
                self.connection.written() == old(self).connection.written(),
                self.pins == old(self).pins,
                self.i2c_data == old(self).i2c_data,
                self.protocol_version == old(self).protocol_version,
                self.firmware_name == old(self).firmware_name,
                self.firmware_version == old(self).firmware_version,
            decreases stream.len() - buf@.len(),
        {
            proof {
                assert(self.connection.to_read().len() == stream.len() - buf@.len());
            }
            let one = match self.connection.read_exact(1) {
                Ok(b) => b,
                Err(e) => {
                    proof {
                        assert(self.connection.to_read().len() <= old(
                            self,
                        ).connection.to_read().len());
                        assert(self.connection.written() == old(self).connection.written());
                        assert(self.state() == old(self).state());
                    }
                    return Err(e);
                },
            };
            let byte = one[0];
            proof {
                assert(stream.skip(buf@.len() as int).take(1)[0] == stream[buf@.len() as int]);
                assert(stream.skip(buf@.len() as int).skip(1) =~= stream.skip(buf@.len() as int + 1));
                assert(buf@.push(byte) =~= stream.take(buf@.len() as int + 1));
            }
            buf.push(byte);
            if byte == END_SYSEX {
                break ;
            }
        }
        proof {
            lemma_first_end_at(stream, 3, buf@.len() - 1);
            assert(spec_frame_len(stream) == buf@.len());
            assert(buf@[0] == START_SYSEX);
            assert(frame_wf(buf@));
        }
        Ok(buf)
    }

    /// Reads one frame off the transport, decodes it, applies it to the
    /// device state, and returns what the message was. A transport failure
    /// surfaces as [`Error::IoError`] and leaves the state untouched; any
    /// complete frame, well-formed or not, is consumed whole, and its
    /// effect and result are exactly those of [`spec_decode`].
    pub fn read_and_decode(&mut self) -> (r: Result<Message, Error>)
        ensures
            final(self).connection.written() == old(self).connection.written(),
            final(self).connection.to_read().len() <= old(self).connection.to_read().len(),
            r == Err::<Message, Error>(Error::IoError) ==> final(self).state() == old(
                self,
            ).state(),
            r != Err::<Message, Error>(Error::IoError) ==> ({
                let stream = old(self).connection.to_read();
                let n = spec_frame_len(stream);
                3 <= n <= stream.len() && final(self).connection.to_read() == stream.skip(n) && (
                final(self).state(),
                r,
                ) == spec_decode(old(self).state(), stream.take(n))
            }),
    {
        let buf = match self.read_frame() {
            Ok(b) => b,
            Err(e) => {
                return Err(e);
            },
        };
        self.decode(&buf)
    }
}

} // verus!
