//! The byte buffers of the `bytes` crate, as far as the records use them.
//!
//! Nothing in this file is proved: each function states what the method of
//! `bytes` or of the standard library that it calls is documented to do.

use bytes::{Buf, BufMut, Bytes, BytesMut};
use std::string::FromUtf8Error;
use vstd::prelude::*;
use vstd::utf8::*;

verus! {

/// `bytes::Bytes`, a buffer to read from. Nothing inside it is seen here.
#[verifier::external_type_specification]
#[verifier::external_body]
pub struct ExBytes(bytes::Bytes);

/// `bytes::BytesMut`, a buffer to write to. Nothing inside it is seen here.
#[verifier::external_type_specification]
#[verifier::external_body]
pub struct ExBytesMut(bytes::BytesMut);

/// `std::string::FromUtf8Error`, the error of `String::from_utf8`. Nothing
/// inside it is seen here.
#[verifier::external_type_specification]
#[verifier::external_body]
pub struct ExFromUtf8Error(std::string::FromUtf8Error);

/// The bytes of a `Bytes` that are still to be read, first to last.
pub uninterp spec fn unread(buf: Bytes) -> Seq<u8>;

/// The bytes a `BytesMut` holds, first to last.
pub uninterp spec fn written(buf: BytesMut) -> Seq<u8>;

/// The 16-bit number whose big-endian bytes are `high`, `low`.
pub open spec fn be16(high: u8, low: u8) -> u16 {
    (high as int * 256 + low as int) as u16
}

/// The big-endian bytes of a 16-bit number.
pub open spec fn be16_bytes(value: u16) -> Seq<u8> {
    seq![(value as int / 256) as u8, (value as int % 256) as u8]
}

/// A 16-bit number is the one its big-endian bytes stand for.
pub proof fn lemma_be16_of_bytes(value: u16)
    ensures
        be16_bytes(value).len() == 2,
        be16(be16_bytes(value)[0], be16_bytes(value)[1]) == value,
{
}

/// `Buf::remaining` of `Bytes`: the number of bytes still to be read.
#[verifier::external_body]
pub(crate) fn remaining(buf: &Bytes) -> (count: usize)
    ensures
        count == unread(*buf).len(),
{
    buf.remaining()
}

/// `Buf::get_u8` of `Bytes`: takes the first unread byte. The method panics
/// on an empty buffer.
#[verifier::external_body]
pub(crate) fn get_u8(buf: &mut Bytes) -> (value: u8)
    requires
        unread(*old(buf)).len() >= 1,
    ensures
        value == unread(*old(buf))[0],
        unread(*final(buf)) == unread(*old(buf)).skip(1),
{
    buf.get_u8()
}

/// `Buf::get_u16` of `Bytes`: takes the first two unread bytes as a number
/// in big-endian byte order. The method panics on fewer than two bytes.
#[verifier::external_body]
pub(crate) fn get_u16(buf: &mut Bytes) -> (value: u16)
    requires
        unread(*old(buf)).len() >= 2,
    ensures
        value == be16(unread(*old(buf))[0], unread(*old(buf))[1]),
        unread(*final(buf)) == unread(*old(buf)).skip(2),
{
    buf.get_u16()
}

/// `Buf::copy_to_bytes` of `Bytes`: splits the first `len` unread bytes off
/// into a buffer of their own. The method panics where fewer are left.
#[verifier::external_body]
pub(crate) fn copy_to_bytes(buf: &mut Bytes, len: usize) -> (head: Bytes)
    requires
        len <= unread(*old(buf)).len(),
    ensures
        unread(head) == unread(*old(buf)).take(len as int),
        unread(*final(buf)) == unread(*old(buf)).skip(len as int),
{
    buf.copy_to_bytes(len)
}

/// `Buf::copy_to_slice` of `Bytes`, into an array of `N` bytes: takes the
/// first `N` unread bytes. The method panics where fewer are left.
#[verifier::external_body]
pub(crate) fn copy_to_array<const N: usize>(buf: &mut Bytes) -> (head: [u8; N])
    requires
        N <= unread(*old(buf)).len(),
    ensures
        head@ == unread(*old(buf)).take(N as int),
        unread(*final(buf)) == unread(*old(buf)).skip(N as int),
{
    let mut head = [0u8; N];
    buf.copy_to_slice(&mut head);
    head
}

/// `<[u8]>::to_vec` on a `Bytes`: a vector of its unread bytes.
#[verifier::external_body]
pub(crate) fn to_vec(buf: &Bytes) -> (bytes: Vec<u8>)
    ensures
        bytes@ == unread(*buf),
{
    buf.to_vec()
}

/// `BufMut::put_u8` of `BytesMut`: appends one byte. The buffer grows as
/// needed.
#[verifier::external_body]
pub(crate) fn put_u8(buf: &mut BytesMut, value: u8)
    ensures
        written(*final(buf)) == written(*old(buf)).push(value),
{
    buf.put_u8(value)
}

/// `BufMut::put_u16` of `BytesMut`: appends a number in big-endian byte
/// order. The buffer grows as needed.
#[verifier::external_body]
pub(crate) fn put_u16(buf: &mut BytesMut, value: u16)
    ensures
        written(*final(buf)) == written(*old(buf)) + be16_bytes(value),
{
    buf.put_u16(value)
}

/// `BufMut::put_slice` of `BytesMut`: appends the bytes of `src`. The buffer
/// grows as needed.
#[verifier::external_body]
pub(crate) fn put_slice(buf: &mut BytesMut, src: &[u8])
    ensures
        written(*final(buf)) == written(*old(buf)) + src@,
{
    buf.put_slice(src)
}

/// `String::from_utf8`: the string whose UTF-8 encoding is `bytes`, or an
/// error where `bytes` is not valid UTF-8.
#[verifier::external_body]
pub(crate) fn string_from_utf8(bytes: Vec<u8>) -> (text: Result<String, FromUtf8Error>)
    ensures
        text is Ok <==> valid_utf8(bytes@),
        text matches Ok(string) ==> encode_utf8(string@) == bytes@,
{
    String::from_utf8(bytes)
}

} // verus!
