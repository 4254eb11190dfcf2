//! Errors of the wire protocol.

use vstd::prelude::*;

verus! {

/// What can go wrong while a message is decoded or encoded.
#[derive(Debug)]
#[allow(inconsistent_fields)]
pub enum ProtocolError {
    /// The message does not have the expected shape.
    InvalidFormat(String),
    /// A value could not be written out.
    SerializationError(String),
    /// The buffer ends before the field does.
    InsufficientBytes { expected: usize, actual: usize },
    /// The bytes of a string are not UTF-8.
    InvalidUtf8(String),
    /// A string does not fit the 16-bit length field.
    StringTooLong { length: usize, max: usize },
    /// A length field holds a value that no string can have.
    InvalidLength { length: i32 },
    /// A read would run past the end of the buffer.
    BufferOverflow { attempted: usize, available: usize },
}

/// Result of a protocol operation.
pub type ProtocolResult<T> = Result<T, ProtocolError>;

/// An error seen as its variant and its numbers, without the free text that
/// some variants carry for people to read.
#[allow(inconsistent_fields)]
pub enum ErrorKind {
    InvalidFormat,
    SerializationError,
    InsufficientBytes { expected: nat, actual: nat },
    InvalidUtf8,
    StringTooLong { length: nat, max: nat },
    InvalidLength { length: int },
    BufferOverflow { attempted: nat, available: nat },
}

impl ProtocolError {
    /// The variant and numbers of this error.
    pub open spec fn kind(self) -> ErrorKind {
        match self {
            ProtocolError::InvalidFormat(_) => ErrorKind::InvalidFormat,
            ProtocolError::SerializationError(_) => ErrorKind::SerializationError,
            ProtocolError::InsufficientBytes { expected, actual } => ErrorKind::InsufficientBytes {
                expected: expected as nat,
                actual: actual as nat,
            },
            ProtocolError::InvalidUtf8(_) => ErrorKind::InvalidUtf8,
            ProtocolError::StringTooLong { length, max } => ErrorKind::StringTooLong {
                length: length as nat,
                max: max as nat,
            },
            ProtocolError::InvalidLength { length } => ErrorKind::InvalidLength {
                length: length as int,
            },
            ProtocolError::BufferOverflow { attempted, available } => ErrorKind::BufferOverflow {
                attempted: attempted as nat,
                available: available as nat,
            },
        }
    }

    /// An error for a buffer that holds `actual` bytes where `expected` are
    /// needed.
    pub fn insufficient_bytes(expected: usize, actual: usize) -> (e: Self)
        ensures
            e == (ProtocolError::InsufficientBytes { expected, actual }),
    {
        Self::InsufficientBytes { expected, actual }
    }

    /// An error for a read of `attempted` bytes where `available` are left.
    pub fn buffer_overflow(attempted: usize, available: usize) -> (e: Self)
        ensures
            e == (ProtocolError::BufferOverflow { attempted, available }),
    {
        Self::BufferOverflow { attempted, available }
    }

    /// An error for a string of `length` bytes where at most `max` fit.
    pub fn string_too_long(length: usize, max: usize) -> (e: Self)
        ensures
            e == (ProtocolError::StringTooLong { length, max }),
    {
        Self::StringTooLong { length, max }
    }

    /// An error for a length field that holds `length`.
    pub fn invalid_length(length: i32) -> (e: Self)
        ensures
            e == (ProtocolError::InvalidLength { length }),
    {
        Self::InvalidLength { length }
    }
}

} // verus!
