//! The ways a protocol operation can fail.

use vstd::prelude::*;

verus! {

/// A protocol or transport failure.
///
/// The encode and decode primitives never recover internally: a malformed
/// byte, a short read or an out-of-range index is surfaced at once. Only
/// the retry layer absorbs failures, and it absorbs every kind uniformly.
#[derive(Debug, PartialEq, Eq)]
pub enum Error {
    /// An extended frame opened with a command byte this library does not know.
    UnknownSysEx { code: u8 },
    /// The first byte of a message matched no opcode, marker or range.
    BadByte { byte: u8 },
    /// The transport failed to read or write.
    IoError,
    /// A firmware name was not valid UTF-8.
    Utf8Error,
    /// A message ended before its mandatory bytes.
    MessageTooShort,
    /// An operation addressed a pin the board does not have.
    PinOutOfBounds { pin: u8, len: usize },
    /// A retried operation gave up after its attempt budget; holds the last
    /// underlying failure.
    AttemptsExceeded { source: Box<Error> },
    /// A retried operation gave up after its time budget; holds the last
    /// underlying failure.
    TimeoutExceeded { source: Box<Error> },
}

} // verus!
