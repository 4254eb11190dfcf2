//! Bounds-checked reading and writing of the primitive wire fields.
//!
//! Every reader is described by a function from the bytes in the buffer to
//! a [`Parsed`] value: what comes out, and which bytes stay behind.

use super::buffer::{
    buf_as_slice, buf_bytes, buf_get_i16, buf_get_i32, buf_get_u8, buf_put_i16, buf_put_slice,
    buf_remaining, buf_take,
};
use super::errors::{ErrorKind, ProtocolError, ProtocolResult};
use super::hexdump::{dump, render};
use super::spec::{MAX_STRING_LENGTH, NULL_STRING_MARKER};
use super::wire::{
    i16_from_be, i16_from_be_pair, i16_to_be, i32_from_be, i32_from_be_quad, lemma_i16_roundtrip,
};
use bytes::BytesMut;
use vstd::prelude::*;
use vstd::utf8::{
    decode_utf8, encode_utf8, encode_utf8_decode_utf8, encode_utf8_valid_utf8, valid_utf8,
};

verus! {

/// What reading a field off the front of some bytes gives: the value or
/// the reason for failure, and the bytes that are left in the buffer.
pub struct Parsed<T> {
    pub outcome: Result<T, ErrorKind>,
    pub rest: Seq<u8>,
}

/// The failure of a read that needs `expected` bytes where fewer are held;
/// nothing is consumed.
pub open spec fn too_short<T>(bytes: Seq<u8>, expected: nat) -> Parsed<T> {
    Parsed {
        outcome: Err(ErrorKind::InsufficientBytes { expected, actual: bytes.len() }),
        rest: bytes,
    }
}

/// Reading one unsigned byte.
pub open spec fn parse_u8(bytes: Seq<u8>) -> Parsed<u8> {
    if bytes.len() < 1 {
        too_short(bytes, 1)
    } else {
        Parsed { outcome: Ok(bytes[0]), rest: bytes.skip(1) }
    }
}

/// Reading a big-endian signed 16-bit integer.
pub open spec fn parse_i16(bytes: Seq<u8>) -> Parsed<i16> {
    if bytes.len() < 2 {
        too_short(bytes, 2)
    } else {
        Parsed { outcome: Ok(i16_from_be(bytes)), rest: bytes.skip(2) }
    }
}

/// Reading a big-endian signed 32-bit integer.
pub open spec fn parse_i32(bytes: Seq<u8>) -> Parsed<i32> {
    if bytes.len() < 4 {
        too_short(bytes, 4)
    } else {
        Parsed { outcome: Ok(i32_from_be(bytes)), rest: bytes.skip(4) }
    }
}

/// Reading the `length` bytes of a string whose length field has already
/// been taken off.
pub open spec fn parse_string_body(bytes: Seq<u8>, length: nat) -> Parsed<Seq<char>> {
    if bytes.len() < length {
        too_short(bytes, length)
    } else if !valid_utf8(bytes.take(length as int)) {
        Parsed { outcome: Err(ErrorKind::InvalidUtf8), rest: bytes.skip(length as int) }
    } else {
        Parsed {
            outcome: Ok(decode_utf8(bytes.take(length as int))),
            rest: bytes.skip(length as int),
        }
    }
}

/// Reading a string: a 16-bit length that must not be negative, then that
/// many bytes of UTF-8.
pub open spec fn parse_string(bytes: Seq<u8>) -> Parsed<Seq<char>> {
    if bytes.len() < 2 {
        too_short(bytes, 2)
    } else {
        let length = i16_from_be(bytes);
        if length < 0 {
            Parsed {
                outcome: Err(ErrorKind::InvalidLength { length: length as int }),
                rest: bytes.skip(2),
            }
        } else {
            parse_string_body(bytes.skip(2), length as nat)
        }
    }
}

/// Reading a nullable string: as a string, but the length `-1` stands for
/// an absent value and is followed by nothing.
pub open spec fn parse_nullable_string(bytes: Seq<u8>) -> Parsed<Option<Seq<char>>> {
    if bytes.len() < 2 {
        too_short(bytes, 2)
    } else {
        let length = i16_from_be(bytes);
        if length == -1 {
            Parsed { outcome: Ok(None), rest: bytes.skip(2) }
        } else if length < 0 {
            Parsed {
                outcome: Err(ErrorKind::InvalidLength { length: length as int }),
                rest: bytes.skip(2),
            }
        } else {
            let body = parse_string_body(bytes.skip(2), length as nat);
            Parsed {
                outcome: match body.outcome {
                    Ok(s) => Ok(Some(s)),
                    Err(kind) => Err(kind),
                },
                rest: body.rest,
            }
        }
    }
}

/// The bytes that stand for a string, or the reason why it has none.
pub open spec fn string_wire(s: Seq<char>) -> Result<Seq<u8>, ErrorKind> {
    let body = encode_utf8(s);
    if body.len() > MAX_STRING_LENGTH {
        Err(ErrorKind::StringTooLong { length: body.len(), max: MAX_STRING_LENGTH as nat })
    } else {
        Ok(i16_to_be(body.len() as i16) + body)
    }
}

/// The bytes that stand for a nullable string, or the reason why it has
/// none.
pub open spec fn nullable_string_wire(s: Option<Seq<char>>) -> Result<Seq<u8>, ErrorKind> {
    match s {
        None => Ok(i16_to_be(NULL_STRING_MARKER)),
        Some(s) => string_wire(s),
    }
}

/// Reading back an encoded string gives the string, and leaves whatever
/// followed it.
pub proof fn lemma_string_roundtrip(s: Seq<char>, tail: Seq<u8>)
    requires
        encode_utf8(s).len() <= MAX_STRING_LENGTH,
    ensures
        string_wire(s) is Ok,
        parse_string(string_wire(s)->Ok_0 + tail) == (Parsed { outcome: Ok(s), rest: tail }),
{
    let body = encode_utf8(s);
    let bytes = string_wire(s)->Ok_0 + tail;
    lemma_i16_roundtrip(body.len() as i16, body + tail);
    assert(bytes =~= i16_to_be(body.len() as i16) + (body + tail));
    assert(bytes.skip(2) =~= body + tail);
    assert(bytes.skip(2).take(body.len() as int) =~= body);
    assert(bytes.skip(2).skip(body.len() as int) =~= tail);
    encode_utf8_valid_utf8(s);
    encode_utf8_decode_utf8(s);
}

/// Reading back an encoded nullable string gives the value, absent or
/// present, and leaves whatever followed it.
pub proof fn lemma_nullable_string_roundtrip(value: Option<Seq<char>>, tail: Seq<u8>)
    requires
        value matches Some(s) ==> encode_utf8(s).len() <= MAX_STRING_LENGTH,
    ensures
        nullable_string_wire(value) is Ok,
        parse_nullable_string(nullable_string_wire(value)->Ok_0 + tail) == (Parsed {
            outcome: Ok(value),
            rest: tail,
        }),
{
    match value {
        None => {
            lemma_i16_roundtrip(NULL_STRING_MARKER, tail);
            assert((i16_to_be(NULL_STRING_MARKER) + tail).skip(2) =~= tail);
        },
        Some(s) => {
            lemma_string_roundtrip(s, tail);
            let body = encode_utf8(s);
            let bytes = string_wire(s)->Ok_0 + tail;
            lemma_i16_roundtrip(body.len() as i16, body + tail);
            assert(bytes =~= i16_to_be(body.len() as i16) + (body + tail));
        },
    }
}

/// The result of an operation as the contracts see it: a value by its
/// view, an error by its kind.
pub open spec fn seen<T: DeepView>(r: ProtocolResult<T>) -> Result<T::V, ErrorKind> {
    match r {
        Ok(v) => Ok(v.deep_view()),
        Err(e) => Err(e.kind()),
    }
}

/// A write of `wire` to a buffer that held `before`: on success the bytes
/// are appended, on failure the buffer is untouched and the error is the
/// one that `wire` names.
pub open spec fn written(
    r: ProtocolResult<()>,
    before: Seq<u8>,
    after: Seq<u8>,
    wire: Result<Seq<u8>, ErrorKind>,
) -> bool {
    match wire {
        Ok(bytes) => r is Ok && after == before + bytes,
        Err(kind) => r is Err && r->Err_0.kind() == kind && after == before,
    }
}

/// A message that can be written in wire form.
pub trait ProtocolEncode: DeepView {
    /// The bytes that stand for a value, or the reason why it has none.
    spec fn wire(v: Self::V) -> Result<Seq<u8>, ErrorKind>;

    /// Encodes the message into a fresh buffer.
    fn encode(&self) -> (r: ProtocolResult<BytesMut>)
        ensures
            match Self::wire(self.deep_view()) {
                Ok(bytes) => r is Ok && buf_bytes(r->Ok_0) == bytes,
                Err(kind) => r is Err && r->Err_0.kind() == kind,
            },
    ;
}

/// A message that can be read from wire form.
pub trait ProtocolDecode: Sized + DeepView {
    /// What reading a value off the front of `bytes` gives.
    spec fn parse(bytes: Seq<u8>) -> Parsed<Self::V>;

    /// Decodes a message from the front of the buffer.
    fn decode(buffer: &mut BytesMut) -> (r: ProtocolResult<Self>)
        ensures
            seen(r) == Self::parse(buf_bytes(*old(buffer))).outcome,
            buf_bytes(*final(buffer)) == Self::parse(buf_bytes(*old(buffer))).rest,
    ;
}

/// Readers and writers for the primitive fields of the wire format.
pub struct WireFormat;

impl WireFormat {
    /// The text of a hex dump of the buffer under the given label, for
    /// whoever wants to print it while looking for a fault.
    pub fn debug_hex_dump(buffer: &BytesMut, label: &str) -> (text: Vec<u8>)
        ensures
            text@ == dump(encode_utf8(label@), buf_bytes(*buffer)),
    {
        render(label.as_bytes(), buf_as_slice(buffer))
    }

    /// Reads the next big-endian 16-bit integer without consuming it.
    pub fn peek_i16(buffer: &BytesMut) -> (r: ProtocolResult<i16>)
        ensures
            seen(r) == parse_i16(buf_bytes(*buffer)).outcome,
    {
        let remaining = buf_remaining(buffer);
        if remaining < 2 {
            return Err(ProtocolError::insufficient_bytes(2, remaining));
        }
        let bytes = buf_as_slice(buffer);
        let v = i16_from_be_pair(bytes[0], bytes[1]);
        assert(seq![bytes@[0], bytes@[1]] =~= bytes@.take(2));
        Ok(v)
    }

    /// Reads the next big-endian 32-bit integer without consuming it.
    pub fn peek_i32(buffer: &BytesMut) -> (r: ProtocolResult<i32>)
        ensures
            seen(r) == parse_i32(buf_bytes(*buffer)).outcome,
    {
        let remaining = buf_remaining(buffer);
        if remaining < 4 {
            return Err(ProtocolError::insufficient_bytes(4, remaining));
        }
        let bytes = buf_as_slice(buffer);
        let v = i32_from_be_quad(bytes[0], bytes[1], bytes[2], bytes[3]);
        Ok(v)
    }

    /// Reads a nullable string: a 16-bit length, `-1` for an absent value,
    /// then that many bytes of UTF-8.
    pub fn decode_nullable_string(buffer: &mut BytesMut) -> (r: ProtocolResult<Option<String>>)
        ensures
            seen(r) == parse_nullable_string(buf_bytes(*old(buffer))).outcome,
            buf_bytes(*final(buffer)) == parse_nullable_string(buf_bytes(*old(buffer))).rest,
            ({
                let before = buf_bytes(*old(buffer));
                let after = buf_bytes(*final(buffer));
                let length = i16_from_be(before);
                // Fewer than two bytes: nothing is read.
                &&& before.len() < 2 ==> after == before && r is Err && r->Err_0
                    == (ProtocolError::InsufficientBytes {
                    expected: 2,
                    actual: before.len() as usize,
                })
                // A length below -1 is no length.
                &&& before.len() >= 2 && length < -1 ==> r is Err && r->Err_0
                    == (ProtocolError::InvalidLength { length: length as i32 })
                // The length -1 stands for an absent string.
                &&& before.len() >= 2 && length == -1 ==> r is Ok && r->Ok_0 is None && after
                    == before.skip(2)
                // Any other length announces that many bytes, which are
                // read if they are there, and are the string if they are
                // UTF-8.
                &&& length >= 0 && before.len() >= 2 + length ==> after == before.skip(2 + length)
                    && (r is Ok <==> valid_utf8(before.subrange(2, 2 + length))) && (r is Ok
                    ==> r->Ok_0 is Some && r->Ok_0->Some_0@ == decode_utf8(
                    before.subrange(2, 2 + length),
                ))
            }),
    {
        let ghost before = buf_bytes(*buffer);
        proof {
            if before.len() >= 2 && i16_from_be(before) >= 0 && before.len() >= 2 + i16_from_be(
                before,
            ) {
                let n = i16_from_be(before) as int;
                assert(before.skip(2).take(n) =~= before.subrange(2, 2 + n));
                assert(before.skip(2).skip(n) =~= before.skip(2 + n));
            }
        }
        let remaining = buf_remaining(buffer);
        if remaining < 2 {
            return Err(ProtocolError::insufficient_bytes(2, remaining));
        }
        let length = buf_get_i16(buffer);
        if length == NULL_STRING_MARKER {
            return Ok(None);
        }
        if length < 0 {
            return Err(ProtocolError::invalid_length(length as i32));
        }
        match Self::decode_string_body(buffer, length as usize) {
            Ok(s) => Ok(Some(s)),
            Err(e) => Err(e),
        }
    }

    /// Writes a nullable string: the length `-1` for an absent value, else
    /// the 16-bit length and the bytes of the string.
    pub fn encode_nullable_string(buffer: &mut BytesMut, value: Option<&str>) -> (r: ProtocolResult<
        (),
    >)
        requires
            nullable_string_wire(value.deep_view()) matches Ok(bytes) ==> buf_bytes(
                *old(buffer),
            ).len() + bytes.len() <= isize::MAX,
        ensures
            written(
                r,
                buf_bytes(*old(buffer)),
                buf_bytes(*final(buffer)),
                nullable_string_wire(value.deep_view()),
            ),
            // Too long a string: nothing is written.
            value is Some && encode_utf8(value->Some_0@).len() > MAX_STRING_LENGTH ==> buf_bytes(
                *final(buffer),
            ) == buf_bytes(*old(buffer)) && r is Err && r->Err_0
                == (ProtocolError::StringTooLong {
                length: encode_utf8(value->Some_0@).len() as usize,
                max: MAX_STRING_LENGTH,
            }),
    {
        match value {
            None => {
                buf_put_i16(buffer, NULL_STRING_MARKER);
                Ok(())
            },
            Some(s) => Self::encode_string(buffer, s),
        }
    }

    /// Reads a string: a 16-bit length, then that many bytes of UTF-8.
    pub fn decode_string(buffer: &mut BytesMut) -> (r: ProtocolResult<String>)
        ensures
            seen(r) == parse_string(buf_bytes(*old(buffer))).outcome,
            buf_bytes(*final(buffer)) == parse_string(buf_bytes(*old(buffer))).rest,
            // Fewer than two bytes: nothing is read.
            buf_bytes(*old(buffer)).len() < 2 ==> buf_bytes(*final(buffer)) == buf_bytes(
                *old(buffer),
            ) && r is Err && r->Err_0 == (ProtocolError::InsufficientBytes {
                expected: 2,
                actual: buf_bytes(*old(buffer)).len() as usize,
            }),
    {
        let remaining = buf_remaining(buffer);
        if remaining < 2 {
            return Err(ProtocolError::insufficient_bytes(2, remaining));
        }
        let length = buf_get_i16(buffer);
        if length < 0 {
            return Err(ProtocolError::invalid_length(length as i32));
        }
        Self::decode_string_body(buffer, length as usize)
    }

    /// Reads the `length` bytes of a string whose length field has been
    /// taken off the buffer.
    fn decode_string_body(buffer: &mut BytesMut, length: usize) -> (r: ProtocolResult<String>)
        ensures
            seen(r) == parse_string_body(buf_bytes(*old(buffer)), length as nat).outcome,
            buf_bytes(*final(buffer)) == parse_string_body(
                buf_bytes(*old(buffer)),
                length as nat,
            ).rest,
    {
        let remaining = buf_remaining(buffer);
        if remaining < length {
            return Err(ProtocolError::insufficient_bytes(length, remaining));
        }
        let bytes = buf_take(buffer, length);
        match String::from_utf8(bytes) {
            Ok(s) => {
                proof {
                    encode_utf8_decode_utf8(s@);
                }
                Ok(s)
            },
            Err(e) => Err(ProtocolError::InvalidUtf8(e.to_string())),
        }
    }

    /// Writes a string: its 16-bit length, then its bytes. A string of more
    /// than 32767 bytes is refused and nothing is written.
    pub fn encode_string(buffer: &mut BytesMut, value: &str) -> (r: ProtocolResult<()>)
        requires
            string_wire(value@) matches Ok(bytes) ==> buf_bytes(*old(buffer)).len() + bytes.len()
                <= isize::MAX,
        ensures
            written(r, buf_bytes(*old(buffer)), buf_bytes(*final(buffer)), string_wire(value@)),
            // Too long a string: nothing is written.
            encode_utf8(value@).len() > MAX_STRING_LENGTH ==> buf_bytes(*final(buffer))
                == buf_bytes(*old(buffer)) && r is Err && r->Err_0
                == (ProtocolError::StringTooLong {
                length: encode_utf8(value@).len() as usize,
                max: MAX_STRING_LENGTH,
            }),
    {
        let bytes = value.as_bytes();
        if bytes.len() > MAX_STRING_LENGTH {
            return Err(ProtocolError::string_too_long(bytes.len(), MAX_STRING_LENGTH));
        }
        buf_put_i16(buffer, bytes.len() as i16);
        buf_put_slice(buffer, bytes);
        assert(buf_bytes(*buffer) =~= buf_bytes(*old(buffer)) + (i16_to_be(bytes@.len() as i16)
            + bytes@));
        Ok(())
    }

    /// Reads a big-endian 16-bit integer.
    pub fn decode_i16(buffer: &mut BytesMut) -> (r: ProtocolResult<i16>)
        ensures
            seen(r) == parse_i16(buf_bytes(*old(buffer))).outcome,
            buf_bytes(*final(buffer)) == parse_i16(buf_bytes(*old(buffer))).rest,
    {
        let remaining = buf_remaining(buffer);
        if remaining < 2 {
            return Err(ProtocolError::insufficient_bytes(2, remaining));
        }
        Ok(buf_get_i16(buffer))
    }

    /// Reads a big-endian 32-bit integer.
    pub fn decode_i32(buffer: &mut BytesMut) -> (r: ProtocolResult<i32>)
        ensures
            seen(r) == parse_i32(buf_bytes(*old(buffer))).outcome,
            buf_bytes(*final(buffer)) == parse_i32(buf_bytes(*old(buffer))).rest,
    {
        let remaining = buf_remaining(buffer);
        if remaining < 4 {
            return Err(ProtocolError::insufficient_bytes(4, remaining));
        }
        Ok(buf_get_i32(buffer))
    }

    /// Reads one unsigned byte.
    pub fn decode_u8(buffer: &mut BytesMut) -> (r: ProtocolResult<u8>)
        ensures
            seen(r) == parse_u8(buf_bytes(*old(buffer))).outcome,
            buf_bytes(*final(buffer)) == parse_u8(buf_bytes(*old(buffer))).rest,
    {
        let remaining = buf_remaining(buffer);
        if remaining < 1 {
            return Err(ProtocolError::insufficient_bytes(1, remaining));
        }
        Ok(buf_get_u8(buffer))
    }
}

} // verus!
