//! The far end of a connection: an IP address or a domain name.

use bytes::{Bytes, BytesMut};
use vstd::prelude::*;
use vstd::string::*;
use vstd::utf8::*;
use crate::protocol::buffer::{put_slice, put_u8, unread, written};
use crate::protocol::reader::{
    decode_text, read_bytes, read_u8, take_array, take_bytes, take_u8, text_of, LoadError, Read,
};

verus! {

/// An IP address, by its octets in network order.
#[derive(Debug, Clone, Copy, PartialEq, Eq)]
pub enum IpAddr {
    V4([u8; 4]),
    V6([u8; 16]),
}

/// An IP address or a domain name.
#[derive(Debug, Clone, PartialEq, Eq)]
pub enum IpEndpoint {
    IpAddr(IpAddr),
    Domain(String),
}

/// The mathematical value of an [`IpEndpoint`]: the octets of an address,
/// or the characters of a name.
pub enum IpEndpointView {
    V4(Seq<u8>),
    V6(Seq<u8>),
    Domain(Seq<char>),
}

impl View for IpEndpoint {
    type V = IpEndpointView;

    open spec fn view(&self) -> IpEndpointView {
        match self {
            IpEndpoint::IpAddr(IpAddr::V4(octets)) => IpEndpointView::V4(octets@),
            IpEndpoint::IpAddr(IpAddr::V6(octets)) => IpEndpointView::V6(octets@),
            IpEndpoint::Domain(domain) => IpEndpointView::Domain(domain@),
        }
    }
}

impl IpEndpointView {
    /// The bytes of the endpoint: a tag, then the octets of the address or
    /// the name as it is. A name has no length in front of it.
    pub open spec fn dump(self) -> Seq<u8> {
        match self {
            IpEndpointView::V4(octets) => seq![0u8] + octets,
            IpEndpointView::Domain(domain) => seq![3u8] + encode_utf8(domain),
            IpEndpointView::V6(octets) => seq![4u8] + octets,
        }
    }

    /// Reads an endpoint: tag 0 and four octets, tag 1 and a name behind its
    /// length of one byte, or tag 2 and sixteen octets.
    pub open spec fn load(input: Seq<u8>) -> Read<IpEndpointView> {
        match read_u8(input) {
            (Err(error), rest) => (Err(error), rest),
            (Ok(tag), input) => if tag == 0 {
                match read_bytes(input, 4) {
                    (Err(error), rest) => (Err(error), rest),
                    (Ok(octets), rest) => (Ok(IpEndpointView::V4(octets)), rest),
                }
            } else if tag == 1 {
                match read_u8(input) {
                    (Err(error), rest) => (Err(error), rest),
                    (Ok(len), input) => match read_bytes(input, len as nat) {
                        (Err(error), rest) => (Err(error), rest),
                        (Ok(domain), rest) => match decode_text(domain) {
                            Err(error) => (Err(error), rest),
                            Ok(domain) => (Ok(IpEndpointView::Domain(domain)), rest),
                        },
                    },
                }
            } else if tag == 2 {
                match read_bytes(input, 16) {
                    (Err(error), rest) => (Err(error), rest),
                    (Ok(octets), rest) => (Ok(IpEndpointView::V6(octets)), rest),
                }
            } else {
                (Err(LoadError::InvalidEndpointType(tag)), input)
            },
        }
    }
}

impl IpEndpointView {
    /// An IPv4 address that was written is read back as it was, and what
    /// follows it in the buffer is left unread.
    pub proof fn lemma_v4_reads_back(octets: Seq<u8>, rest: Seq<u8>)
        requires
            octets.len() == 4,
        ensures
            Self::load(IpEndpointView::V4(octets).dump() + rest) == (
                Ok::<IpEndpointView, LoadError>(IpEndpointView::V4(octets)),
                rest,
            ),
    {
        let input = IpEndpointView::V4(octets).dump() + rest;
        assert(input.skip(1) =~= octets + rest);
        assert((octets + rest).take(4) =~= octets);
        assert((octets + rest).skip(4) =~= rest);
    }

    /// A domain name or an IPv6 address that was written is not read back:
    /// it is written under a tag that reading does not know.
    pub proof fn lemma_name_and_v6_do_not_read_back(self, rest: Seq<u8>)
        requires
            self is Domain || self is V6,
        ensures
            Self::load(self.dump() + rest).0 == Err::<IpEndpointView, LoadError>(
                LoadError::InvalidEndpointType(
                    if self is Domain {
                        3
                    } else {
                        4
                    },
                ),
            ),
    {
    }
}

impl IpEndpoint {
    /// Appends the endpoint to `buf`.
    pub fn dump(&self, buf: &mut BytesMut)
        ensures
            written(*final(buf)) == written(*old(buf)) + self@.dump(),
    {
        match self {
            IpEndpoint::IpAddr(IpAddr::V4(octets)) => {
                put_u8(buf, 0);
                put_slice(buf, octets.as_slice());
            },
            IpEndpoint::Domain(domain) => {
                put_u8(buf, 3);
                put_slice(buf, domain.as_str().as_bytes());
            },
            IpEndpoint::IpAddr(IpAddr::V6(octets)) => {
                put_u8(buf, 4);
                put_slice(buf, octets.as_slice());
            },
        }
        assert(written(*buf) =~= written(*old(buf)) + self@.dump());
    }

    /// Takes one endpoint off `buf`. What is left of `buf` is what the
    /// endpoint did not use; after an error, what had not been taken by then.
    pub fn load(buf: &mut Bytes) -> (endpoint: Result<IpEndpoint, LoadError>)
        ensures
            match IpEndpointView::load(unread(*old(buf))).0 {
                Ok(expected) => endpoint matches Ok(loaded) && loaded@ == expected,
                Err(error) => endpoint == Err::<IpEndpoint, LoadError>(error),
            },
            unread(*final(buf)) == IpEndpointView::load(unread(*old(buf))).1,
    {
        let tag = take_u8(buf)?;
        match tag {
            0 => {
                let octets = take_array::<4>(buf)?;
                Ok(IpEndpoint::IpAddr(IpAddr::V4(octets)))
            },
            1 => {
                let len = take_u8(buf)?;
                let domain = take_bytes(buf, len as usize)?;
                Ok(IpEndpoint::Domain(text_of(domain)?))
            },
            2 => {
                let octets = take_array::<16>(buf)?;
                Ok(IpEndpoint::IpAddr(IpAddr::V6(octets)))
            },
            _ => Err(LoadError::InvalidEndpointType(tag)),
        }
    }
}

} // verus!
