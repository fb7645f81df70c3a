pub mod encryption;
pub mod key_exchange;
pub mod random;
