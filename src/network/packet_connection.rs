pub mod packet_assembly;
pub mod packet_buffer;

use vstd::prelude::*;
use crate::cryptography::encryption;

verus! {

#[derive(Debug)]
pub enum Error {
    /// IO error
    IOError(std::io::Error),
    /// Failed to assemble packet
    PacketAssembly(packet_assembly::Error),
    /// Crypto initialization error
    CryptoInitialization(String),
    /// Failed to encrypt message
    EncryptMessage(encryption::Error),
}

/// Key exchanges a packet connection can negotiate with.
#[derive(Debug, Clone, Copy, PartialEq, Eq, Structural)]
pub enum KEX {
    Curve25519,
}

/// Ciphers a packet connection can encrypt with.
#[derive(Debug, Clone, Copy, PartialEq, Eq, Structural)]
pub enum Crypto {
    Aes256,
}

} // verus!
