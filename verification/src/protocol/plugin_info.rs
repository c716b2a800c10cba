//! The record by which a plugin names itself.

use bytes::{Bytes, BytesMut};
use vstd::prelude::*;
use vstd::string::*;
use vstd::utf8::*;
use crate::protocol::buffer::{put_slice, put_u8, unread, written};
use crate::protocol::reader::{
    decode_text, read_bytes, read_u8, take_bytes, take_u8, text_of, LoadError, Read,
};

verus! {

/// The name and the version of a plugin.
#[derive(Debug, Clone, PartialEq, Eq)]
pub struct PluginInfo {
    pub name: String,
    pub version: String,
}

/// The mathematical value of a [`PluginInfo`].
pub struct PluginInfoView {
    pub name: Seq<char>,
    pub version: Seq<char>,
}

impl View for PluginInfo {
    type V = PluginInfoView;

    open spec fn view(&self) -> PluginInfoView {
        PluginInfoView { name: self.name@, version: self.version@ }
    }
}

impl PluginInfoView {
    /// The bytes of the record: the name behind its length, then the
    /// version with a closing zero byte behind the length of both. Each
    /// length is one byte and counts modulo 256.
    pub open spec fn dump(self) -> Seq<u8> {
        let name = encode_utf8(self.name);
        let version = encode_utf8(self.version);
        seq![(name.len() % 256) as u8] + name + seq![(version.len() % 256 + 1) as u8] + version
            + seq![0u8]
    }

    /// Whether the length byte of the version, which counts the closing zero
    /// byte too, fits its byte.
    pub open spec fn dumpable(self) -> bool {
        encode_utf8(self.version).len() % 256 != 255
    }

    /// Reads a record: a name and a version, each behind its length of one
    /// byte. All four fields are taken before either text is decoded, the
    /// name first.
    pub open spec fn load(input: Seq<u8>) -> Read<PluginInfoView> {
        match read_u8(input) {
            (Err(error), rest) => (Err(error), rest),
            (Ok(name_len), input) => match read_bytes(input, name_len as nat) {
                (Err(error), rest) => (Err(error), rest),
                (Ok(name), input) => match read_u8(input) {
                    (Err(error), rest) => (Err(error), rest),
                    (Ok(version_len), input) => match read_bytes(input, version_len as nat) {
                        (Err(error), rest) => (Err(error), rest),
                        (Ok(version), rest) => match (decode_text(name), decode_text(version)) {
                            (Ok(name), Ok(version)) => (Ok(PluginInfoView { name, version }), rest),
                            (Err(error), _) => (Err(error), rest),
                            (_, Err(error)) => (Err(error), rest),
                        },
                    },
                },
            },
        }
    }
}

/// The encoding of a text with one more character is the encoding of the
/// text, then that of the character.
proof fn lemma_encode_push(chars: Seq<char>, last: char)
    ensures
        encode_utf8(chars.push(last)) == encode_utf8(chars) + encode_scalar(last as u32),
    decreases chars.len(),
{
    let longer = chars.push(last);
    if chars.len() == 0 {
        assert(longer.drop_first() =~= Seq::<char>::empty());
        assert(encode_utf8(longer.drop_first()) =~= Seq::<u8>::empty());
        assert(longer[0] == last);
        assert(encode_utf8(longer) =~= encode_scalar(last as u32));
        assert(encode_utf8(chars) + encode_scalar(last as u32) =~= encode_scalar(last as u32));
    } else {
        assert(longer.drop_first() =~= chars.drop_first().push(last));
        lemma_encode_push(chars.drop_first(), last);
        assert(longer[0] == chars[0]);
        assert(encode_utf8(longer) =~= encode_utf8(chars) + encode_scalar(last as u32));
    }
}

impl PluginInfoView {
    /// A record whose lengths fit their bytes is read back with its name as
    /// it was and with the closing zero byte as one more character of its
    /// version; what follows the record in the buffer is left unread.
    pub proof fn lemma_reads_back_with_closing_zero(self, rest: Seq<u8>)
        requires
            encode_utf8(self.name).len() < 256,
            encode_utf8(self.version).len() < 255,
        ensures
            Self::load(self.dump() + rest) == (
                Ok::<PluginInfoView, LoadError>(
                    PluginInfoView { name: self.name, version: self.version.push('\0') },
                ),
                rest,
            ),
    {
        let name = encode_utf8(self.name);
        let version = encode_utf8(self.version);
        let closed = version + seq![0u8];
        let input = self.dump() + rest;
        let after_name_len = name + seq![(version.len() + 1) as u8] + closed + rest;
        let after_name = seq![(version.len() + 1) as u8] + closed + rest;
        assert(input.skip(1) =~= after_name_len);
        assert(after_name_len.take(name.len() as int) =~= name);
        assert(after_name_len.skip(name.len() as int) =~= after_name);
        assert(after_name.skip(1) =~= closed + rest);
        assert((closed + rest).take(closed.len() as int) =~= closed);
        assert((closed + rest).skip(closed.len() as int) =~= rest);
        encode_utf8_valid_utf8(self.name);
        encode_utf8_decode_utf8(self.name);
        assert(0u32 & 0x7F == 0) by (bit_vector);
        assert('\0' as u32 == 0u32);
        assert(encode_scalar('\0' as u32) =~= seq![0u8]);
        lemma_encode_push(self.version, '\0');
        encode_utf8_valid_utf8(self.version.push('\0'));
        encode_utf8_decode_utf8(self.version.push('\0'));
    }
}

impl PluginInfo {
    /// Whether the record can be written: the length byte of the version
    /// has room for the closing zero byte.
    pub fn dumpable(&self) -> (fits: bool)
        ensures
            fits == self@.dumpable(),
    {
        self.version.as_str().as_bytes().len() % 256 != 255
    }

    /// Appends the record to `buf`.
    pub fn dump(&self, buf: &mut BytesMut)
        requires
            self@.dumpable(),
        ensures
            written(*final(buf)) == written(*old(buf)) + self@.dump(),
    {
        let name = self.name.as_str().as_bytes();
        let version = self.version.as_str().as_bytes();
        let name_len: u8 = (name.len() % 256) as u8;
        let version_len: u8 = (version.len() % 256) as u8;
        put_u8(buf, name_len);
        put_slice(buf, name);
        put_u8(buf, version_len + 1);
        put_slice(buf, version);
        put_u8(buf, 0);
        assert(written(*buf) =~= written(*old(buf)) + self@.dump());
    }

    /// Takes one record off `buf`. What is left of `buf` is what the record
    /// did not use; after an error, what had not been taken by then.
    pub fn load(buf: &mut Bytes) -> (info: Result<PluginInfo, LoadError>)
        ensures
            match PluginInfoView::load(unread(*old(buf))).0 {
                Ok(expected) => info matches Ok(loaded) && loaded@ == expected,
                Err(error) => info == Err::<PluginInfo, LoadError>(error),
            },
            unread(*final(buf)) == PluginInfoView::load(unread(*old(buf))).1,
    {
        let name_len = take_u8(buf)?;
        let name = take_bytes(buf, name_len as usize)?;
        let version_len = take_u8(buf)?;
        let version = take_bytes(buf, version_len as usize)?;
        let name = text_of(name)?;
        let version = text_of(version)?;
        Ok(PluginInfo { name, version })
    }
}

} // verus!
