use vstd::prelude::*;
use vstd::string::StringExecFns;

use crate::text::{decimal, hex4, push_decimal, push_hex4};

verus! {

/// Errors that can occur during M3UA message processing.
#[derive(Debug, Clone, Copy, PartialEq, Eq)]
pub enum M3uaError {
    /// The buffer is shorter than the structure being decoded.
    TooShort { expected: usize, actual: usize },
    /// The common header carries a version other than 1.
    InvalidVersion(u8),
    /// The message-class octet names no known class.
    InvalidMessageClass(u8),
    /// The `(class, type)` pair names no known message type.
    InvalidMessageType { class: u8, msg_type: u8 },
    /// A parameter declares a length below its own 4-byte header.
    InvalidParameter { tag: u16, length: u16 },
    /// A parameter declares more bytes than the buffer holds.
    ParameterTooShort { tag: u16, expected: usize, actual: usize },
    /// A required parameter is absent.
    MissingParameter(u16),
}

/// The message describing an error, such as
/// `invalid parameter: tag=0x0006, length=2`.
pub open spec fn error_text(e: M3uaError) -> Seq<char> {
    match e {
        M3uaError::TooShort { expected, actual } => "message too short: expected at least "@
            + decimal(expected as nat) + " bytes, got "@ + decimal(actual as nat),
        M3uaError::InvalidVersion(v) => "invalid version: expected 1, got "@ + decimal(v as nat),
        M3uaError::InvalidMessageClass(c) => "invalid message class: "@ + decimal(c as nat),
        M3uaError::InvalidMessageType { class, msg_type } => "invalid message type: class="@
            + decimal(class as nat) + ", type="@ + decimal(msg_type as nat),
        M3uaError::InvalidParameter { tag, length } => "invalid parameter: tag=0x"@ + hex4(tag)
            + ", length="@ + decimal(length as nat),
        M3uaError::ParameterTooShort { tag, expected, actual } => "parameter too short: tag=0x"@
            + hex4(tag) + ", expected at least "@ + decimal(expected as nat) + " bytes, got "@
            + decimal(actual as nat),
        M3uaError::MissingParameter(tag) => "missing required parameter: tag=0x"@ + hex4(tag),
    }
}

impl M3uaError {
    /// The human-readable message describing the error.
    pub fn to_string(&self) -> (s: String)
        ensures
            s@ == error_text(*self),
    {
        match *self {
            M3uaError::TooShort { expected, actual } => {
                let mut s = String::from_str("message too short: expected at least ");
                push_decimal(&mut s, expected as u64);
                s.append(" bytes, got ");
                push_decimal(&mut s, actual as u64);
                s
            },
            M3uaError::InvalidVersion(v) => {
                let mut s = String::from_str("invalid version: expected 1, got ");
                push_decimal(&mut s, v as u64);
                s
            },
            M3uaError::InvalidMessageClass(c) => {
                let mut s = String::from_str("invalid message class: ");
                push_decimal(&mut s, c as u64);
                s
            },
            M3uaError::InvalidMessageType { class, msg_type } => {
                let mut s = String::from_str("invalid message type: class=");
                push_decimal(&mut s, class as u64);
                s.append(", type=");
                push_decimal(&mut s, msg_type as u64);
                s
            },
            M3uaError::InvalidParameter { tag, length } => {
                let mut s = String::from_str("invalid parameter: tag=0x");
                push_hex4(&mut s, tag);
                s.append(", length=");
                push_decimal(&mut s, length as u64);
                s
            },
            M3uaError::ParameterTooShort { tag, expected, actual } => {
                let mut s = String::from_str("parameter too short: tag=0x");
                push_hex4(&mut s, tag);
                s.append(", expected at least ");
                push_decimal(&mut s, expected as u64);
                s.append(" bytes, got ");
                push_decimal(&mut s, actual as u64);
                s
            },
            M3uaError::MissingParameter(tag) => {
                let mut s = String::from_str("missing required parameter: tag=0x");
                push_hex4(&mut s, tag);
                s
            },
        }
    }
}

} // verus!
