//! Decode errors for the wire protocol.
//!
//! Connection-level failures (peer closed, timeouts) belong to the I/O
//! layer that drives the codec; everything here is frame-recoverable: the
//! offending line is dropped and decoding resumes with the next one.

use vstd::prelude::*;

verus! {

/// Why one wire line or activator notification could not be decoded.
#[derive(Debug, Clone, Copy, PartialEq, Eq, Structural)]
pub enum DecodeError {
    /// The line held no tokens at all.
    EmptyLine,
    /// The line held a keyword but no status token.
    MissingStatus,
    /// The response keyword is not one the protocol defines.
    UnknownCommand,
    /// An XML response line whose status token is not a byte length.
    BadXmlHeader,
    /// An XML payload that is not valid UTF-8.
    InvalidUtf8,
    /// An activator notification with an unrecognized keyword.
    UnknownActivator,
    /// An activator notification with too few value tokens.
    MissingArgument,
}

impl DecodeError {
    /// A short description, usable in logs.
    pub fn describe(&self) -> (r: &'static str)
        ensures
            r@.len() > 0,
    {
        proof {
            reveal_strlit("empty command");
            reveal_strlit("missing status token");
            reveal_strlit("no matching command found");
            reveal_strlit("failed to read XML length");
            reveal_strlit("XML payload is not valid UTF-8");
            reveal_strlit("unknown activator");
            reveal_strlit("not enough values for activator");
        }
        match self {
            DecodeError::EmptyLine => "empty command",
            DecodeError::MissingStatus => "missing status token",
            DecodeError::UnknownCommand => "no matching command found",
            DecodeError::BadXmlHeader => "failed to read XML length",
            DecodeError::InvalidUtf8 => "XML payload is not valid UTF-8",
            DecodeError::UnknownActivator => "unknown activator",
            DecodeError::MissingArgument => "not enough values for activator",
        }
    }
}

} // verus!
