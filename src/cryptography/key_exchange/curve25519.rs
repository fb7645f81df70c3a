use vstd::prelude::*;
use crate::cryptography::key_exchange::{Error, HandshakeMode, KeyExchange};
use crate::cryptography::random::random_array_32;
use crate::network::connection::Connection;

verus! {

pub const PUB_KEY_BYTE_SIZE: usize = 32;

/// The u-coordinate of the Curve25519 base point (RFC 7748).
pub const X25519_BASEPOINT: [u8; 32] = [
    9, 0, 0, 0, 0, 0, 0, 0, 0, 0, 0, 0, 0, 0, 0, 0,
    0, 0, 0, 0, 0, 0, 0, 0, 0, 0, 0, 0, 0, 0, 0, 0,
];

/// The X25519 function of RFC 7748: `scalar` times the point `point`.
pub uninterp spec fn x25519_spec(scalar: Seq<u8>, point: Seq<u8>) -> Seq<u8>;

/// The public key of a 32-byte secret.
pub open spec fn public_key_of(secret: Seq<u8>) -> Seq<u8> {
    x25519_spec(secret, X25519_BASEPOINT@)
}

/// `shared`, computed from `secret` and the point `point`, is what the owner
/// of `point` computes from its own secret and the public key of `secret`.
pub open spec fn agrees(secret: Seq<u8>, point: Seq<u8>, shared: Seq<u8>) -> bool {
    forall|other: Seq<u8>|
        other.len() == 32 && point == #[trigger] public_key_of(other) ==> shared == x25519_spec(
            other,
            public_key_of(secret),
        )
}

/// Relies on `x25519_dalek::x25519`, the RFC 7748 function: the result
/// depends on the two inputs alone, and, as the crate's documentation
/// shows, two parties applying it to their own secret and the other's
/// public key get the same bytes.
#[verifier::external_body]
fn x25519(k: [u8; 32], u: [u8; 32]) -> (r: [u8; 32])
    ensures
        r@ == x25519_spec(k@, u@),
        agrees(k@, u@, r@),
{
    x25519_dalek::x25519(k, u)
}

/// The public key that belongs to `secret`.
pub fn public_key(secret: &[u8; 32]) -> (r: [u8; 32])
    ensures
        r@ == public_key_of(secret@),
{
    x25519(*secret, X25519_BASEPOINT)
}

/// The secret shared with the owner of `remote_public_key`, which must be 32
/// bytes long.
pub fn shared_secret(secret: &[u8; 32], remote_public_key: &[u8]) -> (r: Result<Vec<u8>, Error>)
    ensures
        r is Ok <==> remote_public_key@.len() == PUB_KEY_BYTE_SIZE,
        r matches Ok(s) ==> s@.len() == 32 && s@ == x25519_spec(secret@, remote_public_key@) && agrees(
            secret@,
            remote_public_key@,
            s@,
        ),
        r matches Err(e) ==> e is Handshake,
{
    if remote_public_key.len() != PUB_KEY_BYTE_SIZE {
        return Err(Error::Handshake("Invalid remote public key size".to_string()));
    }
    let mut remote = [0u8; 32];
    let mut i: usize = 0;
    while i < PUB_KEY_BYTE_SIZE
        invariant
            0 <= i <= PUB_KEY_BYTE_SIZE,
            remote_public_key@.len() == PUB_KEY_BYTE_SIZE,
            forall|j: int| 0 <= j < i ==> remote@[j] == remote_public_key@[j],
        decreases PUB_KEY_BYTE_SIZE - i,
    {
        remote[i] = remote_public_key[i];
        i = i + 1;
    }
    assert(remote@ =~= remote_public_key@);
    let shared = x25519(*secret, remote);
    let mut out: Vec<u8> = Vec::new();
    let mut j: usize = 0;
    while j < 32
        invariant
            0 <= j <= 32,
            out@ == shared@.take(j as int),
        decreases 32 - j,
    {
        out.push(shared[j]);
        assert(shared@.take(j + 1) =~= shared@.take(j as int).push(shared@[j as int]));
        j = j + 1;
    }
    assert(shared@.take(32) =~= shared@);
    Ok(out)
}

/// Ephemeral X25519 Diffie-Hellman: each side sends its public key as one
/// message and receives the other's.
pub struct Curve25519;

impl KeyExchange for Curve25519 {
    fn handshake<E: std::fmt::Display, C: Connection<ErrorType = E>>(
        &mut self,
        connection: &mut C,
        _mode: HandshakeMode,
    ) -> (r: Result<Vec<u8>, Error>)
        ensures
            r matches Ok(s) ==> s@.len() == 32 && exists|k: Seq<u8>, p: Seq<u8>|
                k.len() == 32 && p.len() == 32 && s@ == x25519_spec(k, p) && agrees(k, p, s@),
            r matches Err(e) ==> e is Communication || e is Handshake,
    {
        let private_key = match random_array_32() {
            Some(k) => k,
            None => return Err(Error::Handshake("no random secret available".to_string())),
        };
        let public = public_key(&private_key);
        match connection.send(public.as_slice()) {
            Ok(_) => {},
            Err(e) => return Err(Error::Communication(e.to_string())),
        }
        let pub_key_data = match connection.receive() {
            Ok(v) => v,
            Err(e) => return Err(Error::Communication(e.to_string())),
        };
        let r = shared_secret(&private_key, pub_key_data.as_slice());
        proof {
            if r is Ok {
                assert(private_key@.len() == 32 && pub_key_data@.len() == 32);
            }
        }
        r
    }
}

} // verus!
