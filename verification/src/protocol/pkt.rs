//! The records of the protocol, each behind its version, operation code and
//! type.

use bytes::{Bytes, BytesMut};
use vstd::prelude::*;
use vstd::string::*;
use vstd::utf8::*;
use crate::protocol::app_packet::{AppPacket, AppPacketView};
use crate::protocol::buffer::{put_slice, put_u8, unread, written};
use crate::protocol::ip::{IpPacket, IpPacketView};
use crate::protocol::plugin_info::{PluginInfo, PluginInfoView};
use crate::protocol::reader::{
    decode_text, read_bytes, read_u16, read_u8, take_bytes, take_u16, take_u8, text_of, LoadError,
    Read,
};

verus! {

/// The protocol version every record begins with.
pub const PROTOCOL_VERSION: u8 = 1;

/// The operation code of the control records.
pub const OP_CONTROL: u8 = 1;

/// The operation code of the traffic records.
pub const OP_TRAFFIC: u8 = 2;

/// A record of the protocol.
#[derive(Debug, Clone, PartialEq, Eq)]
pub enum ProtocolPacket {
    PluginInfo(PluginInfo),
    Config(String),
    SendIP(IpPacket),
    RecvIP(IpPacket),
    SendUDP(AppPacket),
    RecvUDP(AppPacket),
    SendTCP(AppPacket),
    RecvTCP(AppPacket),
}

/// The mathematical value of a [`ProtocolPacket`].
pub enum ProtocolPacketView {
    PluginInfo(PluginInfoView),
    Config(Seq<char>),
    SendIP(IpPacketView),
    RecvIP(IpPacketView),
    SendUDP(AppPacketView),
    RecvUDP(AppPacketView),
    SendTCP(AppPacketView),
    RecvTCP(AppPacketView),
}

impl View for ProtocolPacket {
    type V = ProtocolPacketView;

    open spec fn view(&self) -> ProtocolPacketView {
        match self {
            ProtocolPacket::PluginInfo(info) => ProtocolPacketView::PluginInfo(info@),
            ProtocolPacket::Config(config) => ProtocolPacketView::Config(config@),
            ProtocolPacket::SendIP(packet) => ProtocolPacketView::SendIP(packet@),
            ProtocolPacket::RecvIP(packet) => ProtocolPacketView::RecvIP(packet@),
            ProtocolPacket::SendUDP(packet) => ProtocolPacketView::SendUDP(packet@),
            ProtocolPacket::RecvUDP(packet) => ProtocolPacketView::RecvUDP(packet@),
            ProtocolPacket::SendTCP(packet) => ProtocolPacketView::SendTCP(packet@),
            ProtocolPacket::RecvTCP(packet) => ProtocolPacketView::RecvTCP(packet@),
        }
    }
}

impl ProtocolPacketView {
    /// The operation code of the record, then its type.
    pub open spec fn tag(self) -> (u8, u8) {
        match self {
            ProtocolPacketView::PluginInfo(_) => (OP_CONTROL, 1),
            ProtocolPacketView::Config(_) => (OP_CONTROL, 2),
            ProtocolPacketView::SendIP(_) => (OP_TRAFFIC, 1),
            ProtocolPacketView::RecvIP(_) => (OP_TRAFFIC, 2),
            ProtocolPacketView::SendUDP(_) => (OP_TRAFFIC, 3),
            ProtocolPacketView::RecvUDP(_) => (OP_TRAFFIC, 4),
            ProtocolPacketView::SendTCP(_) => (OP_TRAFFIC, 5),
            ProtocolPacketView::RecvTCP(_) => (OP_TRAFFIC, 6),
        }
    }

    /// The bytes of what the record carries. A configuration is written as
    /// it is, with no length in front of it.
    pub open spec fn body(self) -> Seq<u8> {
        match self {
            ProtocolPacketView::PluginInfo(info) => info.dump(),
            ProtocolPacketView::Config(config) => encode_utf8(config),
            ProtocolPacketView::SendIP(packet) => packet.dump(),
            ProtocolPacketView::RecvIP(packet) => packet.dump(),
            ProtocolPacketView::SendUDP(packet) => packet.dump(),
            ProtocolPacketView::RecvUDP(packet) => packet.dump(),
            ProtocolPacketView::SendTCP(packet) => packet.dump(),
            ProtocolPacketView::RecvTCP(packet) => packet.dump(),
        }
    }

    /// The bytes of the record: version, operation code, type, body.
    pub open spec fn dump(self) -> Seq<u8> {
        seq![PROTOCOL_VERSION, self.tag().0, self.tag().1] + self.body()
    }

    /// Whether every length byte of the record fits its byte.
    pub open spec fn dumpable(self) -> bool {
        self matches ProtocolPacketView::PluginInfo(info) ==> info.dumpable()
    }

    /// Reads a configuration: text behind its 16-bit length.
    pub open spec fn load_config(input: Seq<u8>) -> Read<Seq<char>> {
        match read_u16(input) {
            (Err(error), rest) => (Err(error), rest),
            (Ok(len), input) => match read_bytes(input, len as nat) {
                (Err(error), rest) => (Err(error), rest),
                (Ok(config), rest) => (decode_text(config), rest),
            },
        }
    }

    /// Reads the body of the record with operation code `op` and type
    /// `kind`.
    pub open spec fn load_body(op: u8, kind: u8, input: Seq<u8>) -> Read<ProtocolPacketView> {
        if op == OP_CONTROL && kind == 1 {
            match PluginInfoView::load(input) {
                (Ok(info), rest) => (Ok(ProtocolPacketView::PluginInfo(info)), rest),
                (Err(error), rest) => (Err(error), rest),
            }
        } else if op == OP_CONTROL && kind == 2 {
            match Self::load_config(input) {
                (Ok(config), rest) => (Ok(ProtocolPacketView::Config(config)), rest),
                (Err(error), rest) => (Err(error), rest),
            }
        } else if op == OP_TRAFFIC && (kind == 1 || kind == 2) {
            match IpPacketView::load(input) {
                (Ok(packet), rest) => (
                    Ok(
                        if kind == 1 {
                            ProtocolPacketView::SendIP(packet)
                        } else {
                            ProtocolPacketView::RecvIP(packet)
                        },
                    ),
                    rest,
                ),
                (Err(error), rest) => (Err(error), rest),
            }
        } else if op == OP_TRAFFIC && 3 <= kind <= 6 {
            match AppPacketView::load(input) {
                (Ok(packet), rest) => (
                    Ok(
                        if kind == 3 {
                            ProtocolPacketView::SendUDP(packet)
                        } else if kind == 4 {
                            ProtocolPacketView::RecvUDP(packet)
                        } else if kind == 5 {
                            ProtocolPacketView::SendTCP(packet)
                        } else {
                            ProtocolPacketView::RecvTCP(packet)
                        },
                    ),
                    rest,
                ),
                (Err(error), rest) => (Err(error), rest),
            }
        } else {
            (Err(LoadError::InvalidPacketType(kind)), input)
        }
    }

    /// Reads a record. The version is checked before anything else is
    /// read; an operation code and type that name no record are reported
    /// by the type.
    pub open spec fn load(input: Seq<u8>) -> Read<ProtocolPacketView> {
        match read_u8(input) {
            (Err(error), rest) => (Err(error), rest),
            (Ok(version), input) => if version != PROTOCOL_VERSION {
                (Err(LoadError::InvalidVersion(version)), input)
            } else {
                match read_u8(input) {
                    (Err(error), rest) => (Err(error), rest),
                    (Ok(op), input) => match read_u8(input) {
                        (Err(error), rest) => (Err(error), rest),
                        (Ok(kind), input) => Self::load_body(op, kind, input),
                    },
                }
            },
        }
    }
}

impl ProtocolPacketView {
    /// Whether the record carries traffic of an IPv4 endpoint, with data
    /// whose length fits 16 bits.
    pub open spec fn reads_back(self) -> bool {
        match self {
            ProtocolPacketView::PluginInfo(_) | ProtocolPacketView::Config(_) => false,
            ProtocolPacketView::SendIP(packet) | ProtocolPacketView::RecvIP(
                packet,
            ) => packet.reads_back(),
            ProtocolPacketView::SendUDP(packet) | ProtocolPacketView::RecvUDP(packet)
            | ProtocolPacketView::SendTCP(packet) | ProtocolPacketView::RecvTCP(
                packet,
            ) => packet.reads_back(),
        }
    }

    /// A traffic record of an IPv4 endpoint that was written is read back
    /// as it was, and what follows it in the buffer is left unread.
    pub proof fn lemma_traffic_reads_back(self, rest: Seq<u8>)
        requires
            self.reads_back(),
        ensures
            Self::load(self.dump() + rest) == (Ok::<ProtocolPacketView, LoadError>(self), rest),
    {
        let input = self.dump() + rest;
        let body = self.body() + rest;
        assert(input.skip(1).skip(1).skip(1) =~= body);
        match self {
            ProtocolPacketView::SendIP(packet) | ProtocolPacketView::RecvIP(packet) => {
                packet.lemma_reads_back(rest);
            },
            ProtocolPacketView::SendUDP(packet) | ProtocolPacketView::RecvUDP(packet)
            | ProtocolPacketView::SendTCP(packet) | ProtocolPacketView::RecvTCP(packet) => {
                packet.lemma_reads_back(rest);
            },
            _ => {},
        }
    }
}

impl ProtocolPacket {
    /// Whether the record can be written: every length byte has room for
    /// what it counts.
    pub fn dumpable(&self) -> (fits: bool)
        ensures
            fits == self@.dumpable(),
    {
        match self {
            ProtocolPacket::PluginInfo(info) => info.dumpable(),
            _ => true,
        }
    }

    /// Appends the record to `buf`.
    pub fn dump(&self, buf: &mut BytesMut)
        requires
            self@.dumpable(),
        ensures
            written(*final(buf)) == written(*old(buf)) + self@.dump(),
    {
        put_u8(buf, PROTOCOL_VERSION);
        match self {
            ProtocolPacket::PluginInfo(info) => {
                put_u8(buf, OP_CONTROL);
                put_u8(buf, 1);
                info.dump(buf);
            },
            ProtocolPacket::Config(config) => {
                put_u8(buf, OP_CONTROL);
                put_u8(buf, 2);
                put_slice(buf, config.as_str().as_bytes());
            },
            ProtocolPacket::SendIP(packet) => {
                put_u8(buf, OP_TRAFFIC);
                put_u8(buf, 1);
                packet.dump(buf);
            },
            ProtocolPacket::RecvIP(packet) => {
                put_u8(buf, OP_TRAFFIC);
                put_u8(buf, 2);
                packet.dump(buf);
            },
            ProtocolPacket::SendUDP(packet) => {
                put_u8(buf, OP_TRAFFIC);
                put_u8(buf, 3);
                packet.dump(buf);
            },
            ProtocolPacket::RecvUDP(packet) => {
                put_u8(buf, OP_TRAFFIC);
                put_u8(buf, 4);
                packet.dump(buf);
            },
            ProtocolPacket::SendTCP(packet) => {
                put_u8(buf, OP_TRAFFIC);
                put_u8(buf, 5);
                packet.dump(buf);
            },
            ProtocolPacket::RecvTCP(packet) => {
                put_u8(buf, OP_TRAFFIC);
                put_u8(buf, 6);
                packet.dump(buf);
            },
        }
        assert(written(*buf) =~= written(*old(buf)) + self@.dump());
    }

    /// Takes one record off `buf`. What is left of `buf` is what the record
    /// did not use; after an error, what had not been taken by then.
    pub fn load(buf: &mut Bytes) -> (packet: Result<ProtocolPacket, LoadError>)
        ensures
            match ProtocolPacketView::load(unread(*old(buf))).0 {
                Ok(expected) => packet matches Ok(loaded) && loaded@ == expected,
                Err(error) => packet == Err::<ProtocolPacket, LoadError>(error),
            },
            unread(*final(buf)) == ProtocolPacketView::load(unread(*old(buf))).1,
    {
        let version = take_u8(buf)?;
        if version != PROTOCOL_VERSION {
            return Err(LoadError::InvalidVersion(version));
        }
        let op = take_u8(buf)?;
        let kind = take_u8(buf)?;
        match (op, kind) {
            (1, 1) => Ok(ProtocolPacket::PluginInfo(PluginInfo::load(buf)?)),
            (1, 2) => {
                let len = take_u16(buf)?;
                let config = take_bytes(buf, len as usize)?;
                Ok(ProtocolPacket::Config(text_of(config)?))
            },
            (2, 1) => Ok(ProtocolPacket::SendIP(IpPacket::load(buf)?)),
            (2, 2) => Ok(ProtocolPacket::RecvIP(IpPacket::load(buf)?)),
            (2, 3) => Ok(ProtocolPacket::SendUDP(AppPacket::load(buf)?)),
            (2, 4) => Ok(ProtocolPacket::RecvUDP(AppPacket::load(buf)?)),
            (2, 5) => Ok(ProtocolPacket::SendTCP(AppPacket::load(buf)?)),
            (2, 6) => Ok(ProtocolPacket::RecvTCP(AppPacket::load(buf)?)),
            _ => Err(LoadError::InvalidPacketType(kind)),
        }
    }
}

} // verus!
