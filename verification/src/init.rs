//! The initialization sequencer: the fixed handshake run once per
//! connection. It queries firmware, capabilities and the analog mapping,
//! blocks until all three answers have been decoded — in any order, other
//! traffic notwithstanding — and then enables digital reporting on the
//! first two ports.

use vstd::prelude::*;

use crate::board::Board;
use crate::board::StateView;
use crate::connection::Connection;
use crate::decode::spec_decode;
use crate::decode::spec_frame_len;
use crate::error::Error;
use crate::frames::query_analog_mapping_frame;
use crate::frames::query_capabilities_frame;
use crate::frames::query_firmware_frame;
use crate::frames::report_digital_frame;
use crate::types::Message;

verus! {

/// The state of a board nothing has been heard from yet.
pub open spec fn empty_state() -> StateView {
    StateView {
        pins: Seq::empty(),
        i2c_data: Seq::empty(),
        protocol_version: Seq::empty(),
        firmware_name: Seq::empty(),
        firmware_version: Seq::empty(),
    }
}

/// What the initialization wait loop computes: frame after frame is
/// decoded off the stream until a firmware report, a capability response
/// and an analog mapping response have each been seen at least once.
/// Unrelated messages are decoded and ignored. `None` when the stream runs
/// out, or a frame fails to decode, before all three arrive.
pub open spec fn init_wait(s: StateView, stream: Seq<u8>, fw: bool, cap: bool, map: bool) -> Option<
    (StateView, Seq<u8>),
>
    decreases stream.len(),
{
    if fw && cap && map {
        Some((s, stream))
    } else {
        let n = spec_frame_len(stream);
        if n < 3 || n > stream.len() {
            None
        } else {
            let r = spec_decode(s, stream.take(n));
            if r.1 is Ok {
                init_wait(
                    r.0,
                    stream.skip(n),
                    fw || r.1->Ok_0 == Message::ReportFirmware,
                    cap || r.1->Ok_0 == Message::CapabilityResponse,
                    map || r.1->Ok_0 == Message::AnalogMappingResponse,
                )
            } else {
                None
            }
        }
    }
}

/// The frames the whole handshake writes, in order.
pub open spec fn handshake_frames() -> Seq<u8> {
    query_firmware_frame() + query_capabilities_frame() + query_analog_mapping_frame()
        + report_digital_frame(0, 1) + report_digital_frame(1, 1)
}

impl<C: Connection> Board<C> {
    /// Runs the handshake: sends the three queries, waits for their three
    /// answers in any order, then enables digital reporting on ports zero
    /// and one. Fails on the first transport or decode error.
    fn initialize_board(&mut self) -> (r: Result<(), Error>)
        ensures
            r is Ok ==> ({
                let w = init_wait(
                    old(self).state(),
                    old(self).connection.to_read(),
                    false,
                    false,
                    false,
                );
                w is Some && final(self).state() == w->Some_0.0
                    && final(self).connection.to_read() == w->Some_0.1
                    && final(self).connection.written() == old(self).connection.written()
                    + handshake_frames()
            }),
    {
        match self.query_firmware() {
            Ok(u) => u,
            Err(e) => {
                return Err(e);
            },
        }
        match self.query_capabilities() {
            Ok(u) => u,
            Err(e) => {
                return Err(e);
            },
        }
        match self.query_analog_mapping() {
            Ok(u) => u,
            Err(e) => {
                return Err(e);
            },
        }

        let ghost s0 = self.state();
        let ghost t0 = self.connection.to_read();
        let ghost w0 = self.connection.written();

        let mut received_firmware = false;
        let mut received_capabilities = false;
        let mut received_analog_mapping = false;

        while !received_firmware || !received_capabilities || !received_analog_mapping
            invariant
                s0 == old(self).state(),
                t0 == old(self).connection.to_read(),
                w0 == old(self).connection.written() + query_firmware_frame()
                    + query_capabilities_frame() + query_analog_mapping_frame(),
                self.connection.written() == w0,
                init_wait(
                    self.state(),
                    self.connection.to_read(),
                    received_firmware,
                    received_capabilities,
                    received_analog_mapping,
                ) == init_wait(s0, t0, false, false, false),
            decreases self.connection.to_read().len(),
        {
            let ghost pre_state = self.state();
            let ghost pre_stream = self.connection.to_read();
            match self.read_and_decode() {
                Ok(m) => {
                    proof {
                        assert(init_wait(
                            pre_state,
                            pre_stream,
                            received_firmware,
                            received_capabilities,
                            received_analog_mapping,
                        ) == init_wait(
                            self.state(),
                            self.connection.to_read(),
                            received_firmware || m == Message::ReportFirmware,
                            received_capabilities || m == Message::CapabilityResponse,
                            received_analog_mapping || m == Message::AnalogMappingResponse,
                        ));
                    }
                    match m {
                        Message::ReportFirmware => {
                            received_firmware = true;
                        },
                        Message::CapabilityResponse => {
                            received_capabilities = true;
                        },
                        Message::AnalogMappingResponse => {
                            received_analog_mapping = true;
                        },
                        _ => {},
                    }
                },
                Err(e) => {
                    return Err(e);
                },
            }
        }

        match self.report_digital(0, 1) {
            Ok(u) => u,
            Err(e) => {
                return Err(e);
            },
        }
        match self.report_digital(1, 1) {
            Ok(u) => u,
            Err(e) => {
                return Err(e);
            },
        }
        proof {
            assert(final(self).connection.written() =~= old(self).connection.written()
                + handshake_frames());
        }
        Ok(())
    }

    /// Builds a board around a transport and runs the handshake; there is
    /// no partial board — any failure surfaces and the board is dropped.
    pub fn new(connection: Box<C>) -> (r: Result<Board<C>, Error>)
        ensures
            r is Ok ==> ({
                let w = init_wait(empty_state(), connection.to_read(), false, false, false);
                w is Some && r->Ok_0.state() == w->Some_0.0 && r->Ok_0.connection.to_read()
                    == w->Some_0.1 && r->Ok_0.connection.written() == connection.written()
                    + handshake_frames()
            }),
    {
        let mut b = Board {
            connection: *connection,
            pins: Vec::new(),
            i2c_data: Vec::new(),
            protocol_version: String::new(),
            firmware_name: String::new(),
            firmware_version: String::new(),
        };
        proof {
            assert(b.state() =~= empty_state());
        }
        match b.initialize_board() {
            Ok(u) => u,
            Err(e) => {
                return Err(e);
            },
        }
        Ok(b)
    }

    /// Builds a board around a transport and runs the handshake, for
    /// callers that pair it with the retrying operations afterwards.
    pub fn retry_new(connection: Box<C>) -> (r: Result<Board<C>, Error>)
        ensures
            r is Ok ==> ({
                let w = init_wait(empty_state(), connection.to_read(), false, false, false);
                w is Some && r->Ok_0.state() == w->Some_0.0 && r->Ok_0.connection.to_read()
                    == w->Some_0.1 && r->Ok_0.connection.written() == connection.written()
                    + handshake_frames()
            }),
    {
        let mut b = Board {
            connection: *connection,
            pins: Vec::new(),
            i2c_data: Vec::new(),
            protocol_version: String::new(),
            firmware_name: String::new(),
            firmware_version: String::new(),
        };
        proof {
            assert(b.state() =~= empty_state());
        }
        match b.initialize_board() {
            Ok(u) => u,
            Err(e) => {
                return Err(e);
            },
        }
        Ok(b)
    }
}

} // verus!
