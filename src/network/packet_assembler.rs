//! The stream reassembler under its earlier name.
pub use crate::network::packet_connection::packet_assembly::{Error, PacketAssembly as PacketAssembler};
