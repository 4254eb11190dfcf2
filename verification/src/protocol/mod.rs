//! The wire protocol: byte order, buffers, strings and headers.
//!
//! - `wire`: big-endian layout of the integers
//! - `buffer`: the byte buffer, as far as the verifier knows it
//! - `errors`: what can go wrong
//! - `encoding`: readers and writers for the primitive fields
//! - `headers`: request and response headers
//! - `hexdump`: a buffer as text, for the eye
//! - `spec`: constants of the protocol

pub mod buffer;
pub mod encoding;
pub mod errors;
pub mod headers;
pub mod hexdump;
pub mod spec;
pub mod wire;

pub use encoding::{ProtocolDecode, ProtocolEncode, WireFormat};
pub use errors::{ProtocolError, ProtocolResult};
pub use headers::{RequestHeaderV2, ResponseHeaderV0};

use buffer::buf_bytes;
use bytes::BytesMut;
use encoding::{nullable_string_wire, parse_nullable_string, seen, written};
use vstd::prelude::*;

verus! {

/// Reads a nullable string off the front of the buffer.
pub fn decode_nullable_string(buffer: &mut BytesMut) -> (r: ProtocolResult<Option<String>>)
    ensures
        seen(r) == parse_nullable_string(buf_bytes(*old(buffer))).outcome,
        buf_bytes(*final(buffer)) == parse_nullable_string(buf_bytes(*old(buffer))).rest,
{
    WireFormat::decode_nullable_string(buffer)
}

/// Writes a nullable string to the end of the buffer.
pub fn encode_nullable_string(buffer: &mut BytesMut, value: Option<&str>) -> (r: ProtocolResult<()>)
    requires
        nullable_string_wire(value.deep_view()) matches Ok(bytes) ==> buf_bytes(
            *old(buffer),
        ).len() + bytes.len() <= isize::MAX,
    ensures
        written(
            r,
            buf_bytes(*old(buffer)),
            buf_bytes(*final(buffer)),
            nullable_string_wire(value.deep_view()),
        ),
{
    WireFormat::encode_nullable_string(buffer, value)
}

} // verus!
