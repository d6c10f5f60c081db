//! Error taxonomy: codec-level errors, which the dispatcher uses to tell
//! "wrong candidate" from "malformed frame", and the session-level errors
//! surfaced to callers.

use vstd::prelude::*;

verus! {

/// What can go wrong while decoding or encoding one frame.
#[derive(Debug, Clone)]
pub enum FractalProtocolError {
    /// A fixed byte of the envelope (start marker, manufacturer id, end
    /// marker) does not hold its required value.
    ConstantMismatch { constant: String },
    /// The received checksum byte does not match the calculated one.
    CrcMismatch { message: u8, calculated: u8 },
    /// No registered schema matched the frame.
    UnknownMessage,
    /// A structurally valid frame whose payload could not be converted to
    /// its domain type.
    MessageConversionError,
    /// A field holds a value outside its closed enumeration.
    UnknownValue { param: String, value: String },
    /// The byte slice does not fit the schema's fixed layout.
    PackingError,
}

/// What can go wrong at the session and transport layer.
#[derive(Debug, Clone)]
pub enum FractalCoreError {
    /// No matching message arrived within the deadline.
    Timeout,
    /// The message source closed before a match arrived.
    Unknown,
    /// A command that needs a connection arrived without one.
    NotConnected,
    Other(String),
    MissingValue(String),
    MidirInit,
    MidirConnectError,
    MidirSendError,
    IoError,
    BroadcastError(String),
}

pub type FractalResult<T> = Result<T, FractalCoreError>;

pub type FractalResultVoid = FractalResult<()>;

} // verus!
