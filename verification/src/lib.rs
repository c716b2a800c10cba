//! Raw link-layer and network-layer sockets, kept free of I/O.
//!
//! The decisions a raw socket has to make are written here as state
//! machines: which operating-system call comes next while a socket is set up,
//! what a failed call means, when a descriptor has to be released, and how a
//! readiness-driven transfer retries. A driver performs each requested
//! operation and reports its outcome; it holds no rule of its own.
//!
//! The tagged binary records that carry captured traffic are encoded and
//! decoded on `bytes` buffers.

pub mod descriptor;
pub mod error;
pub mod ipsocket;
pub mod l2socket;
pub mod protocol;
pub mod text;
pub mod transfer;

pub use crate::descriptor::SetupEvent;
pub use crate::error::{OsError, OsErrorKind, SocketError};
pub use crate::ipsocket::{IpAction, IpSetup, IpSocket, IpStage, IpVersion};
pub use crate::l2socket::{EthernetSocket, LinkAction, LinkSetup, LinkStage, ProtocolFilter};
pub use crate::protocol::app_packet::AppPacket;
pub use crate::protocol::endpoint::{IpAddr, IpEndpoint};
pub use crate::protocol::ip::IpPacket;
pub use crate::protocol::pkt::ProtocolPacket;
pub use crate::protocol::plugin_info::PluginInfo;
pub use crate::protocol::reader::LoadError;
pub use crate::transfer::{Direction, Phase, Transfer, TransferAction, TransferEvent};
