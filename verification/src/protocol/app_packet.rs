//! The payload of a transport connection, with its endpoint and port.

use bytes::{Bytes, BytesMut};
use vstd::prelude::*;
use crate::protocol::buffer::{be16_bytes, lemma_be16_of_bytes, put_slice, put_u16, unread, written};
use crate::protocol::endpoint::{IpEndpoint, IpEndpointView};
use crate::protocol::reader::{read_bytes, read_u16, take_bytes, take_u16, LoadError, Read};

verus! {

/// Application data sent to or received from a port of an endpoint.
#[derive(Debug, Clone, PartialEq, Eq)]
pub struct AppPacket {
    pub endpoint: IpEndpoint,
    pub port: u16,
    pub data: Vec<u8>,
}

/// The mathematical value of an [`AppPacket`].
pub struct AppPacketView {
    pub endpoint: IpEndpointView,
    pub port: u16,
    pub data: Seq<u8>,
}

impl View for AppPacket {
    type V = AppPacketView;

    open spec fn view(&self) -> AppPacketView {
        AppPacketView { endpoint: self.endpoint@, port: self.port, data: self.data@ }
    }
}

impl AppPacketView {
    /// The bytes of the record: the endpoint, the port, then the data behind
    /// its length. Port and length are 16-bit numbers in big-endian byte
    /// order; the length counts modulo 65536.
    pub open spec fn dump(self) -> Seq<u8> {
        self.endpoint.dump() + be16_bytes(self.port) + be16_bytes(
            (self.data.len() % 65536) as u16,
        ) + self.data
    }

    /// Reads a record: an endpoint, a port, then data behind its 16-bit
    /// length.
    pub open spec fn load(input: Seq<u8>) -> Read<AppPacketView> {
        match IpEndpointView::load(input) {
            (Err(error), rest) => (Err(error), rest),
            (Ok(endpoint), input) => match read_u16(input) {
                (Err(error), rest) => (Err(error), rest),
                (Ok(port), input) => match read_u16(input) {
                    (Err(error), rest) => (Err(error), rest),
                    (Ok(len), input) => match read_bytes(input, len as nat) {
                        (Err(error), rest) => (Err(error), rest),
                        (Ok(data), rest) => (Ok(AppPacketView { endpoint, port, data }), rest),
                    },
                },
            },
        }
    }
}

impl AppPacketView {
    /// Whether the endpoint is an IPv4 address and the length of the data
    /// fits 16 bits.
    pub open spec fn reads_back(self) -> bool {
        &&& self.endpoint matches IpEndpointView::V4(octets)
        &&& octets.len() == 4
        &&& self.data.len() < 65536
    }

    /// A record of an IPv4 endpoint that was written is read back as it
    /// was, and what follows it in the buffer is left unread.
    pub proof fn lemma_reads_back(self, rest: Seq<u8>)
        requires
            self.reads_back(),
        ensures
            Self::load(self.dump() + rest) == (Ok::<AppPacketView, LoadError>(self), rest),
    {
        let len = be16_bytes((self.data.len() % 65536) as u16);
        let after_endpoint = self.dump().skip(5) + rest;
        let after_len = len + self.data + rest;
        assert(self.dump() + rest =~= self.endpoint.dump() + after_endpoint);
        IpEndpointView::lemma_v4_reads_back(self.endpoint->V4_0, after_endpoint);
        let port = be16_bytes(self.port);
        let after_port = port + len + self.data + rest;
        assert(after_endpoint =~= after_port);
        assert(after_port.skip(2) =~= after_len);
        lemma_be16_of_bytes(self.port);
        lemma_be16_of_bytes((self.data.len() % 65536) as u16);
        assert(after_len.skip(2) =~= self.data + rest);
        assert((self.data + rest).take(self.data.len() as int) =~= self.data);
        assert((self.data + rest).skip(self.data.len() as int) =~= rest);
    }
}

impl AppPacket {
    /// Appends the record to `buf`.
    pub fn dump(&self, buf: &mut BytesMut)
        ensures
            written(*final(buf)) == written(*old(buf)) + self@.dump(),
    {
        let len: u16 = (self.data.len() % 65536) as u16;
        self.endpoint.dump(buf);
        put_u16(buf, self.port);
        put_u16(buf, len);
        put_slice(buf, self.data.as_slice());
        assert(written(*buf) =~= written(*old(buf)) + self@.dump());
    }

    /// Takes one record off `buf`. What is left of `buf` is what the record
    /// did not use; after an error, what had not been taken by then.
    pub fn load(buf: &mut Bytes) -> (packet: Result<AppPacket, LoadError>)
        ensures
            match AppPacketView::load(unread(*old(buf))).0 {
                Ok(expected) => packet matches Ok(loaded) && loaded@ == expected,
                Err(error) => packet == Err::<AppPacket, LoadError>(error),
            },
            unread(*final(buf)) == AppPacketView::load(unread(*old(buf))).1,
    {
        let endpoint = IpEndpoint::load(buf)?;
        let port = take_u16(buf)?;
        let len = take_u16(buf)?;
        let data = take_bytes(buf, len as usize)?;
        Ok(AppPacket { endpoint, port, data })
    }
}

} // verus!
