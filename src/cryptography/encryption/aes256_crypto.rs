use vstd::prelude::*;
use crate::cryptography::encryption::{Encryption, Error};
use crate::cryptography::random::random_array_12;
use aes_gcm::aead::{Aead, KeyInit};

verus! {

pub const NONCE_SIZE: usize = 12;

pub const KEY_SIZE: usize = 32;

/// Bytes that the authentication tag adds to a message.
pub const TAG_SIZE: usize = 16;

/// Longest plaintext that AES-GCM seals.
pub open spec fn gcm_max_plaintext_len() -> nat {
    0x10_0000_0000
}

/// AES-256-GCM with empty associated data: the encrypted message followed
/// by its 16-byte tag, under `key` and `nonce`.
pub uninterp spec fn aes256_gcm_seal(key: Seq<u8>, nonce: Seq<u8>, plaintext: Seq<u8>) -> Seq<u8>;

/// The nonce of a transmitted message: its last twelve bytes.
pub open spec fn message_nonce(message: Seq<u8>) -> Seq<u8> {
    message.skip(message.len() - NONCE_SIZE)
}

/// The sealed part of a transmitted message: all but its last twelve bytes.
pub open spec fn message_body(message: Seq<u8>) -> Seq<u8> {
    message.take(message.len() - NONCE_SIZE)
}

/// `message` is `plaintext` sealed under `key`, followed by the nonce used.
pub open spec fn sealed_message(key: Seq<u8>, plaintext: Seq<u8>, message: Seq<u8>) -> bool {
    &&& message.len() >= NONCE_SIZE
    &&& message_body(message) == aes256_gcm_seal(key, message_nonce(message), plaintext)
}

/// Relies on `aes_gcm::Aes256Gcm` (`KeyInit::new`, then `Aead::encrypt`
/// with empty associated data): it refuses a plaintext over 2^36 bytes
/// (`P_MAX`), and otherwise returns the ciphertext with the 16-byte tag
/// appended, which depends on key, nonce and plaintext alone.
#[verifier::external_body]
fn gcm_seal(key: &[u8; 32], nonce: &[u8; 12], plaintext: &[u8]) -> (r: Option<Vec<u8>>)
    ensures
        r is Some <==> plaintext@.len() <= gcm_max_plaintext_len(),
        r matches Some(c) ==> c@ == aes256_gcm_seal(key@, nonce@, plaintext@),
        r matches Some(c) ==> c@.len() == plaintext@.len() + TAG_SIZE,
{
    let cipher = aes_gcm::Aes256Gcm::new(aes_gcm::Key::<aes_gcm::Aes256Gcm>::from_slice(key));
    cipher.encrypt(aes_gcm::Nonce::from_slice(nonce), plaintext).ok()
}

/// Relies on `aes_gcm::Aes256Gcm` (`KeyInit::new`, then `Aead::decrypt`
/// with empty associated data): it succeeds exactly when the tag checks,
/// that is when the input is the sealing of the plaintext it returns, and
/// it opens whatever `Aead::encrypt` sealed under the same key and nonce.
#[verifier::external_body]
fn gcm_open(key: &[u8; 32], nonce: &[u8; 12], ciphertext: &[u8]) -> (r: Option<Vec<u8>>)
    ensures
        r matches Some(p) ==> ciphertext@ == aes256_gcm_seal(key@, nonce@, p@),
        r matches Some(p) ==> forall|m: Seq<u8>|
            m.len() <= gcm_max_plaintext_len() && #[trigger] aes256_gcm_seal(key@, nonce@, m) == ciphertext@
                ==> p@ == m,
        r is None ==> forall|m: Seq<u8>|
            m.len() <= gcm_max_plaintext_len() ==> #[trigger] aes256_gcm_seal(key@, nonce@, m) != ciphertext@,
{
    let cipher = aes_gcm::Aes256Gcm::new(aes_gcm::Key::<aes_gcm::Aes256Gcm>::from_slice(key));
    cipher.decrypt(aes_gcm::Nonce::from_slice(nonce), ciphertext).ok()
}

/// AES-256-GCM with a fresh random nonce for every message, which travels
/// after the sealed message.
pub struct Aes256Crypto {
    key: [u8; 32],
}

impl Aes256Crypto {
    pub fn new(shared_secret: &[u8; 32]) -> (r: Self)
        ensures
            r.key() == shared_secret@,
    {
        Self { key: *shared_secret }
    }

    /// `data` sealed under a fresh nonce, followed by that nonce.
    pub fn seal_message(&self, data: &[u8]) -> (r: Result<Vec<u8>, Error>)
        ensures
            r matches Ok(m) ==> sealed_message(self.key(), data@, m@) && m@.len() == data@.len() + TAG_SIZE
                + NONCE_SIZE,
            r is Ok ==> data@.len() <= gcm_max_plaintext_len(),
            data@.len() > gcm_max_plaintext_len() ==> r is Err,
            r matches Err(e) ==> e is Encryption,
    {
        let nonce = match random_array_12() {
            Some(n) => n,
            None => return Err(Error::Encryption("no random nonce available".to_string())),
        };
        self.seal_with_nonce(&nonce, data)
    }

    /// `data` sealed under `nonce`, followed by `nonce`.
    pub fn seal_with_nonce(&self, nonce: &[u8; 12], data: &[u8]) -> (r: Result<Vec<u8>, Error>)
        ensures
            r is Ok <==> data@.len() <= gcm_max_plaintext_len(),
            r matches Ok(m) ==> sealed_message(self.key(), data@, m@) && message_nonce(m@) == nonce@
                && m@.len() == data@.len() + TAG_SIZE + NONCE_SIZE,
            r matches Err(e) ==> e is Encryption,
    {
        let mut sealed = match gcm_seal(&self.key, nonce, data) {
            Some(c) => c,
            None => return Err(Error::Encryption("message too long to encrypt".to_string())),
        };
        let ghost body = sealed@;
        let mut i: usize = 0;
        while i < NONCE_SIZE
            invariant
                0 <= i <= NONCE_SIZE,
                sealed@ == body + nonce@.take(i as int),
            decreases NONCE_SIZE - i,
        {
            sealed.push(nonce[i]);
            assert(nonce@.take(i + 1) =~= nonce@.take(i as int).push(nonce@[i as int]));
            i = i + 1;
        }
        assert(nonce@.take(12) =~= nonce@);
        assert(message_body(sealed@) =~= body);
        assert(message_nonce(sealed@) =~= nonce@);
        Ok(sealed)
    }

    /// The plaintext of a message that `seal_message` produced under the same
    /// key. A plaintext longer than the cipher seals is refused.
    pub fn open_message(&self, data: &[u8]) -> (r: Result<Vec<u8>, Error>)
        ensures
            r matches Ok(p) ==> sealed_message(self.key(), p@, data@) && p@.len() <= gcm_max_plaintext_len(),
            forall|m: Seq<u8>|
                m.len() <= gcm_max_plaintext_len() && #[trigger] sealed_message(self.key(), m, data@)
                    ==> (r matches Ok(p) && p@ == m),
            data@.len() < NONCE_SIZE ==> r is Err,
            r matches Err(e) ==> e is Encryption,
    {
        if data.len() < NONCE_SIZE {
            return Err(Error::Encryption("Encrypted message does not contain nonce.".to_string()));
        }
        let len = data.len();
        let split = len - NONCE_SIZE;
        let mut nonce = [0u8; 12];
        let mut i: usize = 0;
        while i < NONCE_SIZE
            invariant
                0 <= i <= NONCE_SIZE,
                split + NONCE_SIZE == len,
                len == data@.len(),
                forall|j: int| 0 <= j < i ==> nonce@[j] == data@[split + j],
            decreases NONCE_SIZE - i,
        {
            nonce[i] = data[split + i];
            i = i + 1;
        }
        assert(nonce@ =~= message_nonce(data@));
        let body = &data[0..split];
        assert(body@ =~= message_body(data@));
        match gcm_open(&self.key, &nonce, body) {
            Some(p) => {
                if p.len() as u64 > 0x10_0000_0000u64 {
                    return Err(Error::Encryption("message too long to decrypt".to_string()));
                }
                Ok(p)
            },
            None => Err(Error::Encryption("aead::Error".to_string())),
        }
    }
}

impl Encryption for Aes256Crypto {
    closed spec fn key(&self) -> Seq<u8> {
        self.key@
    }

    open spec fn seals(&self, plain: Seq<u8>, message: Seq<u8>) -> bool {
        plain.len() <= gcm_max_plaintext_len() && sealed_message(self.key(), plain, message)
    }

    /// Keys the cipher; the secret must be 32 bytes.
    fn initialize(shared_secret: &[u8]) -> (r: Result<Box<Self>, Error>)
        ensures
            r is Ok <==> shared_secret@.len() == KEY_SIZE,
            r matches Ok(c) ==> c.key() == shared_secret@,
            r matches Err(e) ==> e is Initialization,
    {
        if shared_secret.len() != KEY_SIZE {
            return Err(Error::Initialization("shared secret must be 32 bytes".to_string()));
        }
        let mut key = [0u8; 32];
        let mut i: usize = 0;
        while i < KEY_SIZE
            invariant
                0 <= i <= KEY_SIZE,
                shared_secret@.len() == KEY_SIZE,
                forall|j: int| 0 <= j < i ==> key@[j] == shared_secret@[j],
            decreases KEY_SIZE - i,
        {
            key[i] = shared_secret[i];
            i = i + 1;
        }
        assert(key@ =~= shared_secret@);
        Ok(Box::new(Self::new(&key)))
    }

    fn encrypt(&mut self, data: &[u8]) -> (r: Result<Vec<u8>, Error>)
        ensures
            final(self).key() == old(self).key(),
            *final(self) == *old(self),
            r matches Ok(m) ==> sealed_message(old(self).key(), data@, m@) && m@.len() == data@.len()
                + TAG_SIZE + NONCE_SIZE,
            data@.len() > gcm_max_plaintext_len() ==> r is Err,
            r matches Err(e) ==> e is Encryption,
    {
        self.seal_message(data)
    }

    fn decrypt(&mut self, data: &[u8]) -> (r: Result<Vec<u8>, Error>)
        ensures
            final(self).key() == old(self).key(),
            *final(self) == *old(self),
            data@.len() < NONCE_SIZE ==> r is Err,
            r matches Err(e) ==> e is Encryption,
    {
        self.open_message(data)
    }
}

} // verus!
