pub mod curve25519;

use vstd::prelude::*;
use crate::network::connection::Connection;

verus! {

/// Which side of the exchange this peer takes. The X25519 exchange is
/// symmetric and does not look at it.
#[derive(Debug, Clone, Copy, PartialEq, Eq, Structural)]
pub enum HandshakeMode {
    Client,
    Server,
}

#[derive(Debug)]
pub enum Error {
    /// Communication error
    Communication(String),
    /// Handshake error
    Handshake(String),
}

/// Negotiates a shared secret over a connection.
pub trait KeyExchange {
    fn handshake<E: std::fmt::Display, C: Connection<ErrorType = E>>(
        &mut self,
        connection: &mut C,
        mode: HandshakeMode,
    ) -> Result<Vec<u8>, Error>;
}

} // verus!
