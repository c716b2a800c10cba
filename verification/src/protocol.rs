//! The tagged binary records that carry control messages and captured
//! traffic.

pub mod app_packet;
pub mod buffer;
pub mod endpoint;
pub mod ip;
pub mod pkt;
pub mod plugin_info;
pub mod reader;
