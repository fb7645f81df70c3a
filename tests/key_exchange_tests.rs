use std::cell::RefCell;
use std::collections::VecDeque;
use std::rc::Rc;

use xs_rust_library::cryptography::encryption::aes256_crypto::Aes256Crypto;
use xs_rust_library::cryptography::key_exchange::curve25519::{public_key, shared_secret, Curve25519, X25519_BASEPOINT};
use xs_rust_library::cryptography::key_exchange::{Error, HandshakeMode, KeyExchange};
use xs_rust_library::network::connection::Connection;
use xs_rust_library::network::encrypted_connection::{key_cipher, EncryptedConnection, HandshakeError, TransmissionError};

type Queue = Rc<RefCell<VecDeque<Vec<u8>>>>;

/// One end of an in-memory message channel. When it waits for a message
/// that is not there yet, it lets the other party take its turn first.
struct ChannelConnection {
    inbox: Queue,
    outbox: Queue,
    wire: Rc<RefCell<Vec<Vec<u8>>>>,
    peer_turn: Option<Box<dyn FnOnce()>>,
}

impl Connection for ChannelConnection {
    type ErrorType = String;

    fn send(&mut self, data: &[u8]) -> Result<(), String> {
        self.wire.borrow_mut().push(data.to_vec());
        self.outbox.borrow_mut().push_back(data.to_vec());
        Ok(())
    }

    fn receive(&mut self) -> Result<Vec<u8>, String> {
        if self.inbox.borrow().is_empty() {
            if let Some(turn) = self.peer_turn.take() {
                turn();
            }
        }
        self.inbox.borrow_mut().pop_front().ok_or_else(|| "channel closed".to_string())
    }
}

/// Two connected ends and the log of every message put on the wire.
fn new_test_pair() -> (ChannelConnection, ChannelConnection, Rc<RefCell<Vec<Vec<u8>>>>) {
    let a: Queue = Rc::new(RefCell::new(VecDeque::new()));
    let b: Queue = Rc::new(RefCell::new(VecDeque::new()));
    let wire = Rc::new(RefCell::new(Vec::new()));
    let local = ChannelConnection { inbox: a.clone(), outbox: b.clone(), wire: wire.clone(), peer_turn: None };
    let remote = ChannelConnection { inbox: b, outbox: a, wire: wire.clone(), peer_turn: None };
    (local, remote, wire)
}

struct FaultyConnection;

impl Connection for FaultyConnection {
    type ErrorType = String;

    fn send(&mut self, _data: &[u8]) -> Result<(), String> {
        Ok(())
    }

    fn receive(&mut self) -> Result<Vec<u8>, String> {
        Ok(Vec::new())
    }
}

struct BrokenConnection;

impl Connection for BrokenConnection {
    type ErrorType = String;

    fn send(&mut self, _data: &[u8]) -> Result<(), String> {
        Err("link down".to_string())
    }

    fn receive(&mut self) -> Result<Vec<u8>, String> {
        Err("link down".to_string())
    }
}

#[test]
fn successful_key_exchange() {
    let (mut con_local, mut con_remote, _wire) = new_test_pair();
    let remote_secret = Rc::new(RefCell::new(None));
    let slot = remote_secret.clone();
    con_local.peer_turn = Some(Box::new(move || {
        *slot.borrow_mut() = Some(Curve25519.handshake(&mut con_remote, HandshakeMode::Client).unwrap());
    }));

    let local = Curve25519.handshake(&mut con_local, HandshakeMode::Server).unwrap();
    let remote = remote_secret.borrow_mut().take().unwrap();
    assert_eq!(local.len(), 32);
    assert_eq!(local, remote);
}

#[test]
fn bad_handshake() {
    Curve25519.handshake(&mut FaultyConnection, HandshakeMode::Client).unwrap_err();
}

#[test]
fn wrong_key_size_is_a_handshake_error() {
    assert!(matches!(
        Curve25519.handshake(&mut FaultyConnection, HandshakeMode::Client),
        Err(Error::Handshake(_))
    ));
    assert!(matches!(shared_secret(&[1u8; 32], &[0u8; 31]), Err(Error::Handshake(_))));
    assert!(matches!(shared_secret(&[1u8; 32], &[0u8; 33]), Err(Error::Handshake(_))));
}

#[test]
fn transport_failure_is_a_communication_error() {
    match Curve25519.handshake(&mut BrokenConnection, HandshakeMode::Server) {
        Err(Error::Communication(text)) => assert_eq!(text, "link down"),
        other => panic!("unexpected {other:?}"),
    }
}

#[test]
fn public_key_is_x25519_of_the_base_point() {
    let secret = [0x42u8; 32];
    assert_eq!(X25519_BASEPOINT, x25519_dalek::X25519_BASEPOINT_BYTES);
    assert_eq!(public_key(&secret), x25519_dalek::x25519(secret, x25519_dalek::X25519_BASEPOINT_BYTES));
    assert_ne!(public_key(&secret), secret);
}

#[test]
fn both_sides_derive_the_same_secret() {
    let a = [0x11u8; 32];
    let b = [0x77u8; 32];
    let from_a = shared_secret(&a, &public_key(&b)).unwrap();
    let from_b = shared_secret(&b, &public_key(&a)).unwrap();
    assert_eq!(from_a, from_b);
    assert_eq!(from_a, x25519_dalek::x25519(a, public_key(&b)).to_vec());
}

#[test]
fn encrypted_connection() {
    let (mut local, remote, wire) = new_test_pair();
    local.peer_turn = Some(Box::new(move || {
        let mut enc_con =
            EncryptedConnection::<Aes256Crypto, _>::with_handshake(remote, Curve25519, HandshakeMode::Client).unwrap();
        enc_con.send(b"top secret").unwrap();
    }));

    let mut enc_con = EncryptedConnection::<Aes256Crypto, _>::with_handshake(local, Curve25519, HandshakeMode::Server).unwrap();
    assert_eq!(b"top secret".as_slice(), &enc_con.receive().unwrap());

    let on_wire = wire.borrow();
    assert_eq!(on_wire.len(), 3);
    assert_eq!(on_wire[2].len(), 10 + 16 + 12);
    for message in on_wire.iter() {
        assert!(!message.windows(10).any(|w| w == b"top secret"));
    }
}

#[test]
fn handshake_failure_is_reported() {
    let r = EncryptedConnection::<Aes256Crypto, _>::with_handshake(FaultyConnection, Curve25519, HandshakeMode::Client);
    assert!(matches!(r, Err(HandshakeError::KeyExchange(Error::Handshake(_)))));
}

#[test]
fn tampered_message_is_a_decrypt_error() {
    let (mut local, remote, _wire) = new_test_pair();
    local.peer_turn = Some(Box::new(move || {
        let mut enc = EncryptedConnection::<Aes256Crypto, _>::with_handshake(remote, Curve25519, HandshakeMode::Client).unwrap();
        enc.get_underlying_connection().send(b"not sealed at all").unwrap();
    }));
    let mut enc = EncryptedConnection::<Aes256Crypto, _>::with_handshake(local, Curve25519, HandshakeMode::Server).unwrap();
    assert!(matches!(enc.receive(), Err(TransmissionError::DecryptMessage(_))));
}

#[test]
fn key_cipher_needs_a_32_byte_secret() {
    assert!(matches!(key_cipher::<Aes256Crypto>(&[0u8; 31]), Err(HandshakeError::Crypto(_))));
    assert!(key_cipher::<Aes256Crypto>(&[0u8; 32]).is_ok());
}

#[test]
fn sealed_packet_opens_on_the_other_end() {
    let (mut local, remote, _wire) = new_test_pair();
    let sealed = Rc::new(RefCell::new(Vec::new()));
    let slot = sealed.clone();
    local.peer_turn = Some(Box::new(move || {
        let mut enc = EncryptedConnection::<Aes256Crypto, _>::with_handshake(remote, Curve25519, HandshakeMode::Client).unwrap();
        *slot.borrow_mut() = enc.seal_packet(b"hello").unwrap();
    }));
    let mut enc = EncryptedConnection::<Aes256Crypto, _>::with_handshake(local, Curve25519, HandshakeMode::Server).unwrap();
    let packet = sealed.borrow().clone();
    assert_eq!(packet.len(), 5 + 16 + 12);
    assert_eq!(enc.open_packet(&packet).unwrap(), b"hello".to_vec());
    let mut tampered = packet.clone();
    tampered[0] ^= 1;
    assert!(matches!(enc.open_packet(&tampered), Err(TransmissionError::DecryptMessage(_))));
}
