//! A verified client for a byte-oriented device-control protocol.
//!
//! The library speaks the wire protocol of remotely controlled
//! microcontroller boards: it encodes pin-mode, analog, digital and I2C
//! commands into exact byte frames, incrementally decodes the board's
//! status stream (including variable-length extended frames and 7-bit
//! value packing), keeps a model of the device's pins and pending I2C
//! replies, and schedules retries with exponential backoff.
//!
//! The transport is abstracted by the [`connection::Connection`] trait:
//! anything that can block-read and block-write bytes plugs in. The
//! protocol engine itself is specified and verified down to the exact
//! bytes written and the exact state change per decoded message.

pub mod board;
pub mod connection;
pub mod constants;
pub mod decode;
pub mod error;
pub mod frames;
pub mod init;
pub mod laws;
pub mod ops;
pub mod retry;
pub mod text;
pub mod types;

pub use board::Board;
pub use connection::Connection;
pub use connection::ScriptedConnection;
pub use error::Error;
pub use ops::Firmata;
pub use retry::RetryPolicy;
pub use retry::RetryStep;
pub use types::I2CReply;
pub use types::Message;
pub use types::Pin;
