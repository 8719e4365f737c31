//! Client library for the vMix remote-control protocol.
//!
//! The wire codec translates typed commands and events to and from the
//! line-oriented TCP format, the activator decoder turns server-pushed
//! state notifications into typed values, the connection module models
//! the lifecycle of the reader/writer thread pair sharing one socket,
//! and the http module holds the pure logic of the stateless query
//! interface.  The I/O that surrounds all of this — sockets, threads,
//! channels, XML reading — lives outside the library and exchanges plain
//! values with it.

use vstd::prelude::*;

pub mod acts;
pub mod commands;
pub mod conn;
pub mod error;
pub mod http;
pub mod models;
pub mod text;

pub use acts::ActivatorsData;
pub use commands::{
    RecvCommand, SUBSCRIBECommand, SendCommand, Status, TallyData, TallyResponse,
};
pub use conn::ConnectionState;
pub use error::DecodeError;
pub use models::Vmix;

verus! {

/// Input numbers on the wire are small positive integers (conventionally
/// up to 1000); the protocol indexes them starting at 1.
pub type InputNumber = u16;

} // verus!
