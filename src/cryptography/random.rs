use vstd::prelude::*;

verus! {

/// Relies on `rand_core::OsRng::try_fill_bytes` (the operating system's
/// generator through `getrandom`): `false` when no random bytes could be had.
/// Nothing can be said of the bytes.
#[verifier::external_body]
pub(crate) fn fill_random(dest: &mut [u8]) -> (ok: bool) {
    rand_core::RngCore::try_fill_bytes(&mut rand_core::OsRng, dest).is_ok()
}

/// Fresh random bytes, or `None` when the operating system gave none.
pub fn random_array_32() -> (r: Option<[u8; 32]>) {
    let mut bytes = [0u8; 32];
    if fill_random(&mut bytes) {
        Some(bytes)
    } else {
        None
    }
}

/// Fresh random bytes, or `None` when the operating system gave none.
pub fn random_array_12() -> (r: Option<[u8; 12]>) {
    let mut bytes = [0u8; 12];
    if fill_random(&mut bytes) {
        Some(bytes)
    } else {
        None
    }
}

} // verus!
