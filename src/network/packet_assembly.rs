//! The stream reassembler; see `packet_connection::packet_assembly`.
pub use crate::network::packet_connection::packet_assembly::{Error, PacketAssembly};
