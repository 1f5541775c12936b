//! Round-trip and preservation laws of the protocol engine, proved once
//! and for all inputs over the same spec functions the contracts use.

use vstd::prelude::*;

use crate::board::StateView;
use crate::board::with_pin_value;
use crate::constants::ANALOG_MESSAGE;
use crate::constants::ANALOG_MESSAGE_BOUND;
use crate::constants::DIGITAL_MESSAGE;
use crate::constants::DIGITAL_MESSAGE_BOUND;
use crate::constants::REPORT_VERSION;
use crate::constants::START_SYSEX;
use crate::decode::analog_update;
use crate::decode::combine7;
use crate::decode::spec_decode;
use crate::error::Error;
use crate::frames::analog_write_frame;
use crate::frames::high7;
use crate::frames::low7;
use crate::frames::port_value;
use crate::frames::port_value_upto;
use crate::types::Message;
use crate::types::PinView;

verus! {

/// A 14-bit value split into its 7-bit halves reassembles exactly.
pub proof fn lemma_value_bytes_round_trip(v: i32)
    requires
        0 <= v <= 16383,
    ensures
        combine7(low7(v), high7(v)) == v,
{
    assert(((((v as u8) & 0x7F) as i32) | ((((((v >> 7) as u8) & 0x7F)) as i32) << 7)) == v)
        by (bit_vector)
        requires
            0 <= v <= 16383,
    ;
}

/// Round trip: commanding an analog level and then feeding the decoder
/// the analog-status frame that addresses the same pin reproduces that
/// level in the pin's stored value, for every addressable pin the board
/// has (the frame's low nibble carries `pin - 14`) and every level in the
/// 14-bit range. The decode succeeds with the analog tag and does exactly
/// what `analog_update` says.
pub proof fn lemma_analog_round_trip(s: StateView, pin: i32, level: i32)
    requires
        14 <= pin <= 29,
        pin < s.pins.len(),
        0 <= level <= 16383,
    ensures
        ({
            let frame = analog_write_frame((pin - 14) as i32, level);
            let sr = spec_decode(s, frame);
            sr.1 == Ok::<Message, Error>(Message::Analog) && sr.0 == analog_update(
                s,
                pin as int,
                level,
            ) && sr.0.pins[pin as int].value == level
        }),
{
    let nib = (pin - 14) as i32;
    let frame = analog_write_frame(nib, level);
    let b0 = frame[0];
    assert(b0 == ANALOG_MESSAGE | (nib as u8));
    assert(0xE0u8 <= (0xE0u8 | (nib as u8)) && (0xE0u8 | (nib as u8)) <= 0xEFu8
        && ((0xE0u8 | (nib as u8)) & 0x0F) == (nib as u8) && (nib as u8) <= 15) by (bit_vector)
        requires
            0 <= nib <= 15,
    ;
    assert((b0 & 0x0F) + 14 == pin);
    lemma_value_bytes_round_trip(level);
    assert(frame[1] == low7(level) && frame[2] == high7(level));
    assert(combine7(frame[1], frame[2]) == level);
    assert(analog_update(s, pin as int, level).pins[pin as int].value == level);
}

/// A message whose first byte matches no opcode, frame marker or range
/// fails with a bad-byte error carrying exactly that byte, and leaves the
/// device state untouched.
pub proof fn lemma_bad_byte_rejected(s: StateView, buf: Seq<u8>)
    requires
        buf.len() >= 3,
        buf[0] != REPORT_VERSION,
        !(ANALOG_MESSAGE <= buf[0] <= ANALOG_MESSAGE_BOUND),
        !(DIGITAL_MESSAGE <= buf[0] <= DIGITAL_MESSAGE_BOUND),
        buf[0] != START_SYSEX,
    ensures
        spec_decode(s, buf) == (s, Err::<Message, Error>(Error::BadByte { byte: buf[0] })),
{
}

/// An analog status message addressing a pin at or past the end of the
/// pin list decodes without error — the tag is still returned — and
/// without mutating any state.
pub proof fn lemma_analog_unknown_pin_ignored(s: StateView, buf: Seq<u8>)
    requires
        buf.len() >= 3,
        ANALOG_MESSAGE <= buf[0] <= ANALOG_MESSAGE_BOUND,
        (buf[0] & 0x0F) + 14 >= s.pins.len(),
    ensures
        spec_decode(s, buf) == (s, Ok::<Message, Error>(Message::Analog)),
{
}

/// Bit `j` of a port value built from the low `k` pins of a port: set
/// exactly when `j` is among those `k`, the pin exists, and its stored
/// value is non-zero. The value stays within eight bits.
proof fn lemma_port_bits_upto(pins: Seq<PinView>, port: int, k: int, j: int)
    requires
        0 <= j < 8,
        0 <= k <= 8,
    ensures
        ({
            let v = port_value_upto(pins, port, k);
            0 <= v < 256 && (((v >> (j as u32)) & 0x01 != 0) == (j < k && 8 * port + j
                < pins.len() && pins[8 * port + j].value != 0))
        }),
    decreases k,
{
    let sh = j as u32;
    if k == 0 {
        assert(((0i32 >> sh) & 0x01) == 0) by (bit_vector);
    } else {
        lemma_port_bits_upto(pins, port, k - 1, j);
        let a = port_value_upto(pins, port, k - 1);
        let cond = 8 * port + (k - 1) < pins.len() && pins[8 * port + (k - 1)].value != 0;
        let sk = ((k - 1) as usize) as u32;
        assert(sk == k - 1);
        if cond {
            assert(port_value_upto(pins, port, k) == a | (1i32 << sk));
            assert(0 <= (a | (1i32 << sk)) < 256 && ((((a | (1i32 << sk)) >> sh) & 0x01 != 0) == (
            ((a >> sh) & 0x01 != 0) || sk == sh))) by (bit_vector)
                requires
                    sh < 8,
                    sk < 8,
                    0 <= a < 256,
            ;
        } else {
            assert(port_value_upto(pins, port, k) == a | 0i32);
            assert((a | 0i32) == a) by (bit_vector);
        }
    }
}

/// A digital write recomputes the whole port from stored values: in the
/// emitted port value, the written pin contributes its new level and each
/// of the other seven pins in the port its last stored value, unchanged.
pub proof fn lemma_digital_write_preserves_siblings(s: StateView, pin: int, level: i32, j: int)
    requires
        0 <= pin < s.pins.len(),
        0 <= j < 8,
    ensures
        ({
            let s2 = with_pin_value(s, pin, level);
            let v = port_value(s2.pins, pin / 8);
            let k = 8 * (pin / 8) + j;
            ((v >> (j as u32)) & 0x01 != 0) == (k < s.pins.len() && (if k == pin {
                level != 0
            } else {
                s.pins[k].value != 0
            }))
        }),
{
    let s2 = with_pin_value(s, pin, level);
    lemma_port_bits_upto(s2.pins, pin / 8, 8, j);
    assert(8 * (pin / 8) + j < 8 * (pin / 8) + 8);
    assert(pin < 8 * (pin / 8) + 8 && 8 * (pin / 8) <= pin) by (nonlinear_arith)
        requires
            pin >= 0,
    ;
}

} // verus!
