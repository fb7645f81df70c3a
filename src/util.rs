pub mod data_buffer;
pub mod shared;
