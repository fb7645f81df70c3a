pub mod aes256_crypto;

use vstd::prelude::*;

verus! {

#[derive(Debug)]
pub enum Error {
    /// Communication error
    Communication(String),
    /// Encryption error
    Encryption(String),
    /// Initialization error
    Initialization(String),
}

/// An authenticated cipher keyed with a shared secret.
pub trait Encryption: Sized {
    /// The secret the cipher is keyed with.
    spec fn key(&self) -> Seq<u8>;

    /// `message` is a transmitted form of `plain` under this cipher.
    spec fn seals(&self, plain: Seq<u8>, message: Seq<u8>) -> bool;

    fn initialize(shared_secret: &[u8]) -> (r: Result<Box<Self>, Error>)
        ensures
            r matches Ok(c) ==> c.key() == shared_secret@,
    ;

    fn encrypt(&mut self, data: &[u8]) -> (r: Result<Vec<u8>, Error>)
        ensures
            final(self).key() == old(self).key(),
            forall|p: Seq<u8>, m: Seq<u8>| #[trigger] final(self).seals(p, m) == old(self).seals(p, m),
            r matches Ok(m) ==> old(self).seals(data@, m@),
    ;

    /// The plaintext that `data` is a transmitted form of; every such
    /// message opens.
    fn decrypt(&mut self, data: &[u8]) -> (r: Result<Vec<u8>, Error>)
        ensures
            final(self).key() == old(self).key(),
            forall|p: Seq<u8>, m: Seq<u8>| #[trigger] final(self).seals(p, m) == old(self).seals(p, m),
            r matches Ok(p) ==> old(self).seals(p@, data@),
            forall|m: Seq<u8>| #[trigger] old(self).seals(m, data@) ==> (r matches Ok(p) && p@ == m),
    ;
}

} // verus!
