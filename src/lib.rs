//! Length-prefixed packet framing over byte streams, an authenticated
//! encryption layer negotiated with X25519, event dispatch and a memoising
//! factory cache.

pub mod cryptography;
pub mod events;
pub mod factory_cache;
pub mod network;
pub mod util;

pub use cryptography::{encryption, key_exchange};
pub use events::{event, one_shot_event, subscription, EventHandler, Handler, Invokable, InvokableOnce, Subscribable};
pub use network::{connection, encrypted_connection, packet_connection};
pub use util::data_buffer;
