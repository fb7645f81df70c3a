use vstd::prelude::*;

verus! {

/// Bytes of the little-endian length that precedes every packet on the wire.
pub const HEADER_SIZE: usize = 4;

} // verus!
