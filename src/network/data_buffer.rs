//! The receive buffer of the packet layer: one fixed allocation, refilled
//! through `get_mut_buffer` and `reset_read_window`.
pub use crate::util::data_buffer::DataBuffer;
