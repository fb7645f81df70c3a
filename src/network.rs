pub mod connection;
pub mod constants;
pub mod data_buffer;
pub mod encrypted_connection;
pub mod framing;
pub mod packet_assembler;
pub mod packet_assembly;
pub mod packet_buffer;
pub mod packet_connection;
pub mod packet_receive_event;
pub mod packet_slicer;
pub mod tcp_packet_connection;
