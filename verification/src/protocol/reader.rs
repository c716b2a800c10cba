//! Reading the fields of a record from a buffer, with the end of the buffer
//! checked before each read.

use bytes::Bytes;
use vstd::prelude::*;
use vstd::string::*;
use vstd::utf8::*;
use crate::protocol::buffer::{
    be16, copy_to_array, copy_to_bytes, get_u16, get_u8, remaining, string_from_utf8, to_vec, unread,
};
use crate::text::{decimal, decimal_text};

verus! {

/// Why a record could not be read.
#[derive(Debug, Clone, Copy, PartialEq, Eq, Structural)]
pub enum LoadError {
    /// The buffer ended inside the record.
    Truncated,
    /// A text field is not valid UTF-8.
    InvalidUtf8,
    /// The tag of an endpoint is none of the known ones.
    InvalidEndpointType(u8),
    /// The record is of a protocol version that is not understood.
    InvalidVersion(u8),
    /// The operation code and type of the record name no known record;
    /// holds the type.
    InvalidPacketType(u8),
}

impl LoadError {
    /// The text of the error.
    pub open spec fn spec_message(self) -> Seq<char> {
        match self {
            LoadError::Truncated => "buffer ended inside a record"@,
            LoadError::InvalidUtf8 => "invalid utf-8 sequence"@,
            LoadError::InvalidEndpointType(tag) => "invalid ip endpoint type: "@ + decimal(
                tag as nat,
            ),
            LoadError::InvalidVersion(version) => "invalid protocol version: "@ + decimal(
                version as nat,
            ),
            LoadError::InvalidPacketType(kind) => "invalid protocol packet type: "@ + decimal(
                kind as nat,
            ),
        }
    }

    /// The text of the error.
    pub fn message(&self) -> (message: String)
        ensures
            message@ == self.spec_message(),
    {
        match self {
            LoadError::Truncated => String::from_str("buffer ended inside a record"),
            LoadError::InvalidUtf8 => String::from_str("invalid utf-8 sequence"),
            LoadError::InvalidEndpointType(tag) => String::from_str(
                "invalid ip endpoint type: ",
            ).concat(decimal_text(*tag as u32).as_str()),
            LoadError::InvalidVersion(version) => String::from_str(
                "invalid protocol version: ",
            ).concat(decimal_text(*version as u32).as_str()),
            LoadError::InvalidPacketType(kind) => String::from_str(
                "invalid protocol packet type: ",
            ).concat(decimal_text(*kind as u32).as_str()),
        }
    }
}

/// What reading from `input` gives: the outcome, and the bytes that are
/// left unread.
pub type Read<T> = (Result<T, LoadError>, Seq<u8>);

/// Reads one byte.
pub open spec fn read_u8(input: Seq<u8>) -> Read<u8> {
    if input.len() < 1 {
        (Err(LoadError::Truncated), input)
    } else {
        (Ok(input[0]), input.skip(1))
    }
}

/// Reads a 16-bit number in big-endian byte order.
pub open spec fn read_u16(input: Seq<u8>) -> Read<u16> {
    if input.len() < 2 {
        (Err(LoadError::Truncated), input)
    } else {
        (Ok(be16(input[0], input[1])), input.skip(2))
    }
}

/// Reads `len` bytes.
pub open spec fn read_bytes(input: Seq<u8>, len: nat) -> Read<Seq<u8>> {
    if input.len() < len {
        (Err(LoadError::Truncated), input)
    } else {
        (Ok(input.take(len as int)), input.skip(len as int))
    }
}

/// The text that `bytes` encode in UTF-8.
pub open spec fn decode_text(bytes: Seq<u8>) -> Result<Seq<char>, LoadError> {
    if valid_utf8(bytes) {
        Ok(decode_utf8(bytes))
    } else {
        Err(LoadError::InvalidUtf8)
    }
}

/// Takes one byte off `buf`, unless it is empty.
pub(crate) fn take_u8(buf: &mut Bytes) -> (value: Result<u8, LoadError>)
    ensures
        (value, unread(*final(buf))) == read_u8(unread(*old(buf))),
{
    if remaining(buf) < 1 {
        Err(LoadError::Truncated)
    } else {
        Ok(get_u8(buf))
    }
}

/// Takes a 16-bit number off `buf`, unless fewer than two bytes are left.
pub(crate) fn take_u16(buf: &mut Bytes) -> (value: Result<u16, LoadError>)
    ensures
        (value, unread(*final(buf))) == read_u16(unread(*old(buf))),
{
    if remaining(buf) < 2 {
        Err(LoadError::Truncated)
    } else {
        Ok(get_u16(buf))
    }
}

/// Takes `len` bytes off `buf`, unless fewer are left.
pub(crate) fn take_bytes(buf: &mut Bytes, len: usize) -> (bytes: Result<Vec<u8>, LoadError>)
    ensures
        match read_bytes(unread(*old(buf)), len as nat).0 {
            Ok(expected) => bytes matches Ok(taken) && taken@ == expected,
            Err(error) => bytes == Err::<Vec<u8>, LoadError>(error),
        },
        unread(*final(buf)) == read_bytes(unread(*old(buf)), len as nat).1,
{
    if remaining(buf) < len {
        Err(LoadError::Truncated)
    } else {
        let head = copy_to_bytes(buf, len);
        Ok(to_vec(&head))
    }
}

/// Takes `N` bytes off `buf` as an array, unless fewer are left.
pub(crate) fn take_array<const N: usize>(buf: &mut Bytes) -> (bytes: Result<[u8; N], LoadError>)
    ensures
        match read_bytes(unread(*old(buf)), N as nat).0 {
            Ok(expected) => bytes matches Ok(taken) && taken@ == expected,
            Err(error) => bytes == Err::<[u8; N], LoadError>(error),
        },
        unread(*final(buf)) == read_bytes(unread(*old(buf)), N as nat).1,
{
    if remaining(buf) < N {
        Err(LoadError::Truncated)
    } else {
        Ok(copy_to_array::<N>(buf))
    }
}

/// The text that `bytes` encode in UTF-8.
pub(crate) fn text_of(bytes: Vec<u8>) -> (text: Result<String, LoadError>)
    ensures
        match decode_text(bytes@) {
            Ok(expected) => text matches Ok(string) && string@ == expected,
            Err(error) => text == Err::<String, LoadError>(error),
        },
{
    let ghost encoded = bytes@;
    match string_from_utf8(bytes) {
        Ok(string) => {
            proof {
                encode_utf8_decode_utf8(string@);
            }
            Ok(string)
        },
        Err(_) => Err(LoadError::InvalidUtf8),
    }
}

} // verus!
