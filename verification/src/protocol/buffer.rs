//! The byte buffer that messages are read from and written to.
//!
//! The buffer is `bytes::BytesMut`. Nothing in this file is proved: each item
//! states what the `bytes` crate (or the standard library) does, and the
//! rest of the crate is verified against these statements.

use super::wire::{i16_from_be, i16_to_be, i32_from_be, i32_to_be};
use bytes::{Buf, BufMut, BytesMut};
use std::string::FromUtf8Error;
use vstd::prelude::*;
use vstd::utf8::{encode_utf8, valid_utf8};

verus! {

/// `bytes::BytesMut`, known to the verifier only through the items below.
#[verifier::external_type_specification]
#[verifier::external_body]
pub struct ExBytesMut(bytes::BytesMut);

/// `std::string::FromUtf8Error`, carried through and never looked into.
#[verifier::external_type_specification]
#[verifier::external_body]
pub struct ExFromUtf8Error(std::string::FromUtf8Error);

/// The bytes that a buffer holds, from the read position to the end.
pub uninterp spec fn buf_bytes(buffer: BytesMut) -> Seq<u8>;

/// `BytesMut::new`: a buffer that holds no bytes.
pub assume_specification[ bytes::BytesMut::new ]() -> (buffer: BytesMut)
    ensures
        buf_bytes(buffer) == Seq::<u8>::empty(),
;

/// `BytesMut::with_capacity`: a buffer that holds no bytes, whatever room
/// was asked for. The call panics when asked for more than `isize::MAX`
/// bytes, which the precondition rules out.
pub assume_specification[ bytes::BytesMut::with_capacity ](capacity: usize) -> (buffer: BytesMut)
    requires
        capacity <= isize::MAX,
    ensures
        buf_bytes(buffer) == Seq::<u8>::empty(),
;

/// `BytesMut::extend_from_slice`: appends the slice. The buffer grows as
/// needed and panics only beyond `isize::MAX` bytes, which the precondition
/// rules out.
pub assume_specification[ bytes::BytesMut::extend_from_slice ](
    buffer: &mut BytesMut,
    extend: &[u8],
)
    requires
        buf_bytes(*old(buffer)).len() + extend@.len() <= isize::MAX,
    ensures
        buf_bytes(*final(buffer)) == buf_bytes(*old(buffer)) + extend@,
;

/// `Deref` of a `BytesMut`: the bytes it holds, as a slice.
#[verifier::external_body]
pub(crate) fn buf_as_slice(buffer: &BytesMut) -> (bytes: &[u8])
    ensures
        bytes@ == buf_bytes(*buffer),
{
    std::ops::Deref::deref(buffer)
}

/// `Buf::remaining` on a `BytesMut`: the number of bytes it holds.
#[verifier::external_body]
pub(crate) fn buf_remaining(buffer: &BytesMut) -> (n: usize)
    ensures
        n == buf_bytes(*buffer).len(),
{
    buffer.remaining()
}

/// `Buf::get_u8` on a `BytesMut`: takes one byte off the front. The call
/// panics on an empty buffer, which the precondition rules out.
#[verifier::external_body]
pub(crate) fn buf_get_u8(buffer: &mut BytesMut) -> (v: u8)
    requires
        buf_bytes(*old(buffer)).len() >= 1,
    ensures
        v == buf_bytes(*old(buffer))[0],
        buf_bytes(*final(buffer)) == buf_bytes(*old(buffer)).skip(1),
{
    buffer.get_u8()
}

/// `Buf::get_i16` on a `BytesMut`: takes two bytes off the front and returns
/// them as a big-endian signed integer. The call panics on fewer than two
/// bytes, which the precondition rules out.
#[verifier::external_body]
pub(crate) fn buf_get_i16(buffer: &mut BytesMut) -> (v: i16)
    requires
        buf_bytes(*old(buffer)).len() >= 2,
    ensures
        v == i16_from_be(buf_bytes(*old(buffer))),
        buf_bytes(*final(buffer)) == buf_bytes(*old(buffer)).skip(2),
{
    buffer.get_i16()
}

/// `Buf::get_i32` on a `BytesMut`: takes four bytes off the front and
/// returns them as a big-endian signed integer. The call panics on fewer
/// than four bytes, which the precondition rules out.
#[verifier::external_body]
pub(crate) fn buf_get_i32(buffer: &mut BytesMut) -> (v: i32)
    requires
        buf_bytes(*old(buffer)).len() >= 4,
    ensures
        v == i32_from_be(buf_bytes(*old(buffer))),
        buf_bytes(*final(buffer)) == buf_bytes(*old(buffer)).skip(4),
{
    buffer.get_i32()
}

/// `Buf::copy_to_bytes` on a `BytesMut`, its result copied into a vector:
/// takes `len` bytes off the front and returns them. The call panics when
/// fewer bytes are held, which the precondition rules out.
#[verifier::external_body]
pub(crate) fn buf_take(buffer: &mut BytesMut, len: usize) -> (taken: Vec<u8>)
    requires
        len <= buf_bytes(*old(buffer)).len(),
    ensures
        taken@ == buf_bytes(*old(buffer)).take(len as int),
        buf_bytes(*final(buffer)) == buf_bytes(*old(buffer)).skip(len as int),
{
    buffer.copy_to_bytes(len).to_vec()
}

/// `BufMut::put_u8` on a `BytesMut`: appends one byte. The buffer grows as
/// needed and panics only beyond `isize::MAX` bytes, which the precondition
/// rules out.
#[verifier::external_body]
pub(crate) fn buf_put_u8(buffer: &mut BytesMut, v: u8)
    requires
        buf_bytes(*old(buffer)).len() + 1 <= isize::MAX,
    ensures
        buf_bytes(*final(buffer)) == buf_bytes(*old(buffer)).push(v),
{
    buffer.put_u8(v)
}

/// `BufMut::put_i16` on a `BytesMut`: appends the two bytes of `v`, most
/// significant first. Panics only beyond `isize::MAX` bytes, which the
/// precondition rules out.
#[verifier::external_body]
pub(crate) fn buf_put_i16(buffer: &mut BytesMut, v: i16)
    requires
        buf_bytes(*old(buffer)).len() + 2 <= isize::MAX,
    ensures
        buf_bytes(*final(buffer)) == buf_bytes(*old(buffer)) + i16_to_be(v),
{
    buffer.put_i16(v)
}

/// `BufMut::put_i32` on a `BytesMut`: appends the four bytes of `v`, most
/// significant first. Panics only beyond `isize::MAX` bytes, which the
/// precondition rules out.
#[verifier::external_body]
pub(crate) fn buf_put_i32(buffer: &mut BytesMut, v: i32)
    requires
        buf_bytes(*old(buffer)).len() + 4 <= isize::MAX,
    ensures
        buf_bytes(*final(buffer)) == buf_bytes(*old(buffer)) + i32_to_be(v),
{
    buffer.put_i32(v)
}

/// `BufMut::put_slice` on a `BytesMut`: appends the slice. Panics only
/// beyond `isize::MAX` bytes, which the precondition rules out.
#[verifier::external_body]
pub(crate) fn buf_put_slice(buffer: &mut BytesMut, src: &[u8])
    requires
        buf_bytes(*old(buffer)).len() + src@.len() <= isize::MAX,
    ensures
        buf_bytes(*final(buffer)) == buf_bytes(*old(buffer)) + src@,
{
    buffer.put_slice(src)
}

/// `String::from` on a string slice: an owned string of the same
/// characters.
pub assume_specification<'a>[ <String as From<&'a str>>::from ](s: &str) -> (owned: String)
    ensures
        owned@ == s@,
;

/// `String::from_utf8`: the string that the bytes encode, holding exactly
/// those bytes, or an error when they are not UTF-8.
pub assume_specification[ String::from_utf8 ](vec: Vec<u8>) -> (r: Result<String, FromUtf8Error>)
    ensures
        r is Ok <==> valid_utf8(vec@),
        r is Ok ==> encode_utf8(r->Ok_0@) == vec@,
;

} // verus!
