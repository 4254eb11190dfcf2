//! Big-endian layout of the fixed-width integers that travel on the wire.

use vstd::prelude::*;

verus! {

/// The unsigned 16-bit number whose big-endian form is `hi, lo`.
pub open spec fn be_u16(hi: u8, lo: u8) -> int {
    hi as int * 256 + lo as int
}

/// The unsigned 32-bit number whose big-endian form is `b0, b1, b2, b3`.
pub open spec fn be_u32(b0: u8, b1: u8, b2: u8, b3: u8) -> int {
    b0 as int * 16777216 + b1 as int * 65536 + b2 as int * 256 + b3 as int
}

/// The signed 16-bit integer that the first two bytes spell in big-endian
/// two's complement.
pub open spec fn i16_from_be(bytes: Seq<u8>) -> i16
    recommends
        bytes.len() >= 2,
{
    let u = be_u16(bytes[0], bytes[1]);
    if u >= 0x8000 {
        (u - 0x1_0000) as i16
    } else {
        u as i16
    }
}

/// The signed 32-bit integer that the first four bytes spell in big-endian
/// two's complement.
pub open spec fn i32_from_be(bytes: Seq<u8>) -> i32
    recommends
        bytes.len() >= 4,
{
    let u = be_u32(bytes[0], bytes[1], bytes[2], bytes[3]);
    if u >= 0x8000_0000 {
        (u - 0x1_0000_0000) as i32
    } else {
        u as i32
    }
}

/// The unsigned 32-bit integer that the first four bytes spell in big-endian.
pub open spec fn u32_from_be(bytes: Seq<u8>) -> u32
    recommends
        bytes.len() >= 4,
{
    be_u32(bytes[0], bytes[1], bytes[2], bytes[3]) as u32
}

/// The four bytes of an unsigned 32-bit integer, most significant first.
pub open spec fn u32_to_be(v: u32) -> Seq<u8> {
    seq![
        (v as int / 16777216) as u8,
        (v as int / 65536 % 256) as u8,
        (v as int / 256 % 256) as u8,
        (v as int % 256) as u8,
    ]
}

/// The two bytes of a signed 16-bit integer in big-endian two's complement.
pub open spec fn i16_to_be(v: i16) -> Seq<u8> {
    let u = if v < 0 {
        v as int + 0x1_0000
    } else {
        v as int
    };
    seq![(u / 256) as u8, (u % 256) as u8]
}

/// The four bytes of a signed 32-bit integer in big-endian two's complement.
pub open spec fn i32_to_be(v: i32) -> Seq<u8> {
    let u = if v < 0 {
        v as int + 0x1_0000_0000
    } else {
        v as int
    };
    seq![
        (u / 16777216) as u8,
        (u / 65536 % 256) as u8,
        (u / 256 % 256) as u8,
        (u % 256) as u8,
    ]
}

/// A number below 2^32 is the sum of its four base-256 digits.
proof fn lemma_u32_digits(u: int)
    requires
        0 <= u < 0x1_0000_0000,
    ensures
        0 <= u / 16777216 < 256,
        be_u32(
            (u / 16777216) as u8,
            (u / 65536 % 256) as u8,
            (u / 256 % 256) as u8,
            (u % 256) as u8,
        ) == u,
{
    let a = u / 256;
    let b = a / 256;
    let c = b / 256;
    assert(u == a * 256 + u % 256);
    assert(a == b * 256 + a % 256);
    assert(b == c * 256 + b % 256);
    assert(u / 65536 == b);
    assert(u / 16777216 == c);
}

/// Reading back the bytes of a 16-bit integer gives the integer, whatever
/// follows them.
pub proof fn lemma_i16_roundtrip(v: i16, tail: Seq<u8>)
    ensures
        i16_to_be(v).len() == 2,
        i16_from_be(i16_to_be(v) + tail) == v,
{
}

/// Reading back the bytes of a 32-bit integer gives the integer, whatever
/// follows them.
pub proof fn lemma_i32_roundtrip(v: i32, tail: Seq<u8>)
    ensures
        i32_to_be(v).len() == 4,
        i32_from_be(i32_to_be(v) + tail) == v,
{
    let u = if v < 0 {
        v as int + 0x1_0000_0000
    } else {
        v as int
    };
    lemma_u32_digits(u);
}

/// Reading back the bytes of an unsigned 32-bit integer gives the integer,
/// whatever follows them.
pub proof fn lemma_u32_roundtrip(v: u32, tail: Seq<u8>)
    ensures
        u32_to_be(v).len() == 4,
        u32_from_be(u32_to_be(v) + tail) == v,
{
    lemma_u32_digits(v as int);
}

/// Combines two bytes, most significant first, into a signed 16-bit integer.
pub fn i16_from_be_pair(hi: u8, lo: u8) -> (v: i16)
    ensures
        v == i16_from_be(seq![hi, lo]),
{
    let u: u32 = (hi as u32) * 256 + (lo as u32);
    if u >= 0x8000 {
        ((u as i32) - 0x1_0000) as i16
    } else {
        u as i16
    }
}

/// Combines four bytes, most significant first, into a signed 32-bit integer.
pub fn i32_from_be_quad(b0: u8, b1: u8, b2: u8, b3: u8) -> (v: i32)
    ensures
        v == i32_from_be(seq![b0, b1, b2, b3]),
{
    let u: u64 = (b0 as u64) * 16777216 + (b1 as u64) * 65536 + (b2 as u64) * 256 + (b3 as u64);
    if u >= 0x8000_0000 {
        ((u as i64) - 0x1_0000_0000) as i32
    } else {
        u as i32
    }
}

/// Combines four bytes, most significant first, into an unsigned 32-bit
/// integer.
pub fn u32_from_be_quad(b0: u8, b1: u8, b2: u8, b3: u8) -> (v: u32)
    ensures
        v == u32_from_be(seq![b0, b1, b2, b3]),
{
    let u: u64 = (b0 as u64) * 16777216 + (b1 as u64) * 65536 + (b2 as u64) * 256 + (b3 as u64);
    u as u32
}

/// The four bytes of an unsigned 32-bit integer, most significant first.
pub fn u32_be_bytes(v: u32) -> (bytes: Vec<u8>)
    ensures
        bytes@ == u32_to_be(v),
{
    let mut bytes: Vec<u8> = Vec::new();
    bytes.push((v / 16777216) as u8);
    bytes.push((v / 65536 % 256) as u8);
    bytes.push((v / 256 % 256) as u8);
    bytes.push((v % 256) as u8);
    assert(bytes@ =~= u32_to_be(v));
    bytes
}

} // verus!
