use vstd::prelude::*;
use crate::cryptography::encryption::{self, Encryption};
use crate::cryptography::key_exchange::{self, HandshakeMode, KeyExchange};
use crate::network::connection::Connection;

verus! {

#[derive(Debug)]
pub enum HandshakeError {
    /// Error during key exchange
    KeyExchange(key_exchange::Error),
    /// Unable to initialize crypto
    Crypto(encryption::Error),
}

#[derive(Debug)]
pub enum TransmissionError {
    /// Underlying connection error
    Connection(String),
    /// Failed to encrypt message
    EncryptMessage(encryption::Error),
    /// Failed to decrypt message
    DecryptMessage(encryption::Error),
}

/// A connection whose messages are encrypted with a cipher keyed by a
/// handshake over the connection itself. It never looks inside the
/// messages it carries.
pub struct EncryptedConnection<Enc, Con> {
    crypto: Enc,
    connection: Con,
}

impl<Enc, Con> EncryptedConnection<Enc, Con> {
    pub closed spec fn crypto(&self) -> Enc {
        self.crypto
    }

    pub closed spec fn connection(&self) -> Con {
        self.connection
    }
}

/// A cipher keyed with `secret`; a refusal of the cipher is `Crypto`.
pub fn key_cipher<Enc: Encryption>(secret: &[u8]) -> (r: Result<Enc, HandshakeError>)
    ensures
        r matches Ok(c) ==> c.key() == secret@,
        r matches Err(e) ==> e is Crypto,
{
    match Enc::initialize(secret) {
        Ok(c) => Ok(*c),
        Err(e) => Err(HandshakeError::Crypto(e)),
    }
}

impl<Enc: Encryption, Con> EncryptedConnection<Enc, Con> {
    /// `data` encrypted for the peer; a failure of the cipher is
    /// `EncryptMessage`.
    pub fn seal_packet(&mut self, data: &[u8]) -> (r: Result<Vec<u8>, TransmissionError>)
        ensures
            final(self).crypto().key() == old(self).crypto().key(),
            final(self).connection() == old(self).connection(),
            forall|p: Seq<u8>, m: Seq<u8>| #[trigger] final(self).crypto().seals(p, m) == old(self).crypto().seals(p, m),
            r matches Ok(m) ==> old(self).crypto().seals(data@, m@),
            r matches Err(e) ==> e is EncryptMessage,
    {
        match self.crypto.encrypt(data) {
            Ok(v) => Ok(v),
            Err(e) => Err(TransmissionError::EncryptMessage(e)),
        }
    }

    /// The plaintext of a packet from the peer; a packet that does not open
    /// is `DecryptMessage`.
    pub fn open_packet(&mut self, packet: &[u8]) -> (r: Result<Vec<u8>, TransmissionError>)
        ensures
            final(self).crypto().key() == old(self).crypto().key(),
            final(self).connection() == old(self).connection(),
            forall|p: Seq<u8>, m: Seq<u8>| #[trigger] final(self).crypto().seals(p, m) == old(self).crypto().seals(p, m),
            r matches Ok(p) ==> old(self).crypto().seals(p@, packet@),
            forall|m: Seq<u8>| #[trigger] old(self).crypto().seals(m, packet@) ==> (r matches Ok(p) && p@ == m),
            r matches Err(e) ==> e is DecryptMessage,
    {
        match self.crypto.decrypt(packet) {
            Ok(v) => Ok(v),
            Err(e) => Err(TransmissionError::DecryptMessage(e)),
        }
    }
}

impl<Enc: Encryption, Con: Connection> EncryptedConnection<Enc, Con> where Con::ErrorType: std::fmt::Display {
    /// Runs the key exchange over `connection` and keys the cipher with the
    /// negotiated secret; the result is ready to send and receive.
    pub fn with_handshake<K: KeyExchange>(mut connection: Con, mut kex: K, mode: HandshakeMode) -> (r: Result<
        Self,
        HandshakeError,
    >)
        ensures
            r matches Err(e) ==> e is KeyExchange || e is Crypto,
    {
        let secret = match kex.handshake(&mut connection, mode) {
            Ok(s) => s,
            Err(e) => return Err(HandshakeError::KeyExchange(e)),
        };
        let crypto = key_cipher::<Enc>(secret.as_slice())?;
        Ok(Self { connection, crypto })
    }

    /// The connection underneath, e.g. to shut it down. What is sent on it
    /// directly is not encrypted.
    pub fn get_underlying_connection(&mut self) -> (r: &mut Con)
        ensures
            *r == old(self).connection(),
            final(self).connection() == *final(r),
            final(self).crypto() == old(self).crypto(),
    {
        &mut self.connection
    }
}

impl<Enc: Encryption, Con: Connection> Connection for EncryptedConnection<Enc, Con> where
    Con::ErrorType: std::fmt::Display,
 {
    type ErrorType = TransmissionError;

    /// Encrypts `data` and sends the result as one message.
    fn send(&mut self, data: &[u8]) -> (r: Result<(), TransmissionError>)
        ensures
            final(self).crypto().key() == old(self).crypto().key(),
            forall|p: Seq<u8>, m: Seq<u8>| #[trigger] final(self).crypto().seals(p, m) == old(self).crypto().seals(p, m),
            r matches Err(e) ==> e is EncryptMessage || e is Connection,
    {
        let encrypted = self.seal_packet(data)?;
        match self.connection.send(encrypted.as_slice()) {
            Ok(_) => Ok(()),
            Err(e) => Err(TransmissionError::Connection(e.to_string())),
        }
    }

    /// Receives one message and decrypts it.
    fn receive(&mut self) -> (r: Result<Vec<u8>, TransmissionError>)
        ensures
            final(self).crypto().key() == old(self).crypto().key(),
            forall|p: Seq<u8>, m: Seq<u8>| #[trigger] final(self).crypto().seals(p, m) == old(self).crypto().seals(p, m),
            r matches Ok(p) ==> exists|packet: Seq<u8>| old(self).crypto().seals(p@, packet),
            r matches Err(e) ==> e is DecryptMessage || e is Connection,
    {
        let packet = match self.connection.receive() {
            Ok(v) => v,
            Err(e) => return Err(TransmissionError::Connection(e.to_string())),
        };
        self.open_packet(packet.as_slice())
    }
}

} // verus!
