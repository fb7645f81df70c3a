use vstd::prelude::*;
use crate::network::framing::{decode_header, le_u32_value};

verus! {

/// The payload of a whole stream in the sliced format: an id byte, a
/// 4-byte little-endian length, then exactly that many bytes. `None` when
/// the stream is shorter than a header or its length disagrees.
pub fn unpack_stream(buffer: &[u8]) -> (r: Option<Vec<u8>>)
    ensures
        r is Some <==> buffer@.len() >= 5 && buffer@.len() == 5 + le_u32_value(buffer@.skip(1)),
        r matches Some(p) ==> p@ == buffer@.skip(5),
{
    if buffer.len() < 5 {
        return None;
    }
    let size_bytes = &buffer[1..5];
    let size = decode_header(size_bytes);
    assert(size_bytes@ =~= buffer@.skip(1).take(4));
    assert(le_u32_value(size_bytes@) == le_u32_value(buffer@.skip(1)));
    if buffer.len() - 5 != size as usize {
        return None;
    }
    let mut packet: Vec<u8> = Vec::new();
    let mut i: usize = 5;
    while i < buffer.len()
        invariant
            5 <= i <= buffer@.len(),
            packet@ == buffer@.subrange(5, i as int),
        decreases buffer@.len() - i,
    {
        packet.push(buffer[i]);
        assert(buffer@.subrange(5, i + 1) =~= buffer@.subrange(5, i as int).push(buffer@[i as int]));
        i = i + 1;
    }
    assert(packet@ =~= buffer@.skip(5));
    Some(packet)
}

} // verus!
