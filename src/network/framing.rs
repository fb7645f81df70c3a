//! The packet wire format: a 4-byte little-endian length, then that many
//! payload bytes, with no other framing byte.
use vstd::prelude::*;
use vstd::arithmetic::div_mod::{lemma_fundamental_div_mod, lemma_div_denominator};

verus! {

/// Largest payload length a header can carry.
pub open spec fn max_packet_len() -> nat {
    0xffff_ffff
}

/// The four little-endian bytes of `n`.
pub open spec fn le_u32_bytes(n: nat) -> Seq<u8> {
    seq![
        (n % 256) as u8,
        ((n / 256) % 256) as u8,
        ((n / 65536) % 256) as u8,
        ((n / 16777216) % 256) as u8,
    ]
}

/// The number whose little-endian bytes are the first four of `b`.
pub open spec fn le_u32_value(b: Seq<u8>) -> nat {
    (b[0] + 256 * b[1] + 65536 * b[2] + 16777216 * b[3]) as nat
}

/// One packet as it stands on the wire.
pub open spec fn frame(payload: Seq<u8>) -> Seq<u8> {
    le_u32_bytes(payload.len()) + payload
}

/// Packets sent back to back.
pub open spec fn frames(packets: Seq<Seq<u8>>) -> Seq<u8>
    decreases packets.len(),
{
    if packets.len() == 0 {
        Seq::empty()
    } else {
        frame(packets[0]) + frames(packets.drop_first())
    }
}

pub open spec fn all_fit(packets: Seq<Seq<u8>>) -> bool {
    forall|i: int| 0 <= i < packets.len() ==> #[trigger] packets[i].len() <= max_packet_len()
}

/// `s` starts with a whole packet: its header and all of its payload.
pub open spec fn frame_complete(s: Seq<u8>) -> bool {
    s.len() >= 4 && s.len() >= 4 + le_u32_value(s)
}

/// Where the packet at the start of `s` ends.
pub open spec fn frame_end(s: Seq<u8>) -> int {
    4 + le_u32_value(s) as int
}

/// The packet at the start of `s` and the bytes after it, if `s` starts
/// with a whole packet.
pub open spec fn decode_frame(s: Seq<u8>) -> Option<(Seq<u8>, Seq<u8>)> {
    if frame_complete(s) {
        Some((s.subrange(4, frame_end(s)), s.subrange(frame_end(s), s.len() as int)))
    } else {
        None
    }
}

/// Every whole packet at the start of `s`, in order, and the bytes left
/// after the last of them.
pub open spec fn decode_all(s: Seq<u8>) -> (Seq<Seq<u8>>, Seq<u8>)
    decreases s.len(),
{
    if frame_complete(s) {
        let rest = decode_all(s.subrange(frame_end(s), s.len() as int));
        (seq![s.subrange(4, frame_end(s))] + rest.0, rest.1)
    } else {
        (Seq::empty(), s)
    }
}

/// Chunks of a stream, joined.
pub open spec fn concat(chunks: Seq<Seq<u8>>) -> Seq<u8>
    decreases chunks.len(),
{
    if chunks.len() == 0 {
        Seq::empty()
    } else {
        concat(chunks.drop_last()) + chunks.last()
    }
}

/// A receiver that takes the chunks one after the other and, after each,
/// hands out every packet that became whole: the packets handed out and the
/// bytes still held.
pub open spec fn receive_chunks(chunks: Seq<Seq<u8>>) -> (Seq<Seq<u8>>, Seq<u8>)
    decreases chunks.len(),
{
    if chunks.len() == 0 {
        (Seq::empty(), Seq::empty())
    } else {
        let before = receive_chunks(chunks.drop_last());
        let now = decode_all(before.1 + chunks.last());
        (before.0 + now.0, now.1)
    }
}

pub proof fn lemma_le_u32_bytes_value(n: nat)
    requires
        n <= max_packet_len(),
    ensures
        le_u32_bytes(n).len() == 4,
        le_u32_value(le_u32_bytes(n)) == n,
{
    let q1 = n / 256;
    let q2 = q1 / 256;
    let q3 = q2 / 256;
    lemma_fundamental_div_mod(n as int, 256);
    lemma_fundamental_div_mod(q1 as int, 256);
    lemma_fundamental_div_mod(q2 as int, 256);
    lemma_div_denominator(n as int, 256, 256);
    lemma_div_denominator(n as int, 65536, 256);
    assert(q3 < 256);
    assert(q3 % 256 == q3);
}

pub proof fn lemma_le_u32_value_bytes(b: Seq<u8>)
    requires
        b.len() == 4,
    ensures
        le_u32_bytes(le_u32_value(b)) == b,
        le_u32_value(b) <= max_packet_len(),
{
    let n = le_u32_value(b);
    let b0 = b[0] as int;
    let b1 = b[1] as int;
    let b2 = b[2] as int;
    let b3 = b[3] as int;
    assert(n == b0 + 256 * (b1 + 256 * (b2 + 256 * b3)));
    lemma_div_denominator(n as int, 256, 256);
    lemma_div_denominator(n as int, 65536, 256);
    assert(n % 256 == b0 && n / 256 == b1 + 256 * (b2 + 256 * b3)) by {
        vstd::arithmetic::div_mod::lemma_div_multiples_vanish_fancy(b1 + 256 * (b2 + 256 * b3), b0, 256);
        vstd::arithmetic::div_mod::lemma_mod_multiples_vanish(b1 + 256 * (b2 + 256 * b3), b0, 256);
        vstd::arithmetic::div_mod::lemma_small_mod(b0 as nat, 256);
    }
    let n1 = b1 + 256 * (b2 + 256 * b3);
    assert(n1 % 256 == b1 && n1 / 256 == b2 + 256 * b3) by {
        vstd::arithmetic::div_mod::lemma_div_multiples_vanish_fancy(b2 + 256 * b3, b1, 256);
        vstd::arithmetic::div_mod::lemma_mod_multiples_vanish(b2 + 256 * b3, b1, 256);
        vstd::arithmetic::div_mod::lemma_small_mod(b1 as nat, 256);
    }
    let n2 = b2 + 256 * b3;
    assert(n2 % 256 == b2 && n2 / 256 == b3) by {
        vstd::arithmetic::div_mod::lemma_div_multiples_vanish_fancy(b3, b2, 256);
        vstd::arithmetic::div_mod::lemma_mod_multiples_vanish(b3, b2, 256);
        vstd::arithmetic::div_mod::lemma_small_mod(b2 as nat, 256);
    }
    vstd::arithmetic::div_mod::lemma_small_mod(b3 as nat, 256);
    assert(le_u32_bytes(n) =~= b);
}

/// The header that precedes a payload of `len` bytes, or `None` when a
/// header cannot carry that length.
pub fn packet_header(len: usize) -> (r: Option<[u8; 4]>)
    ensures
        r is Some <==> len <= max_packet_len(),
        r matches Some(h) ==> h@ == le_u32_bytes(len as nat),
{
    let wide = len as u64;
    if wide > 0xffff_ffff {
        return None;
    }
    let h = [
        (wide % 256) as u8,
        ((wide / 256) % 256) as u8,
        ((wide / 65536) % 256) as u8,
        ((wide / 16777216) % 256) as u8,
    ];
    assert(h@ =~= le_u32_bytes(len as nat));
    Some(h)
}

/// The length that the first four bytes of `header` carry.
pub fn decode_header(header: &[u8]) -> (r: u32)
    requires
        header@.len() >= 4,
    ensures
        r == le_u32_value(header@),
{
    header[0] as u32 + header[1] as u32 * 256 + header[2] as u32 * 65536 + header[3] as u32 * 16777216
}

/// A packet followed by anything decodes to that packet and that rest.
pub proof fn lemma_frame_round_trip(payload: Seq<u8>, rest: Seq<u8>)
    requires
        payload.len() <= max_packet_len(),
    ensures
        decode_frame(frame(payload) + rest) == Some((payload, rest)),
        decode_all(frame(payload) + rest) == (seq![payload] + decode_all(rest).0, decode_all(rest).1),
{
    lemma_le_u32_bytes_value(payload.len());
    let s = frame(payload) + rest;
    assert(s.take(4) =~= le_u32_bytes(payload.len()));
    assert(le_u32_value(s) == le_u32_value(le_u32_bytes(payload.len())));
    assert(s.subrange(4, frame_end(s)) =~= payload);
    assert(s.subrange(frame_end(s), s.len() as int) =~= rest);
}

/// Packets sent back to back are received as the same packets, in order,
/// with nothing left over.
pub proof fn lemma_packets_in_order(packets: Seq<Seq<u8>>)
    requires
        all_fit(packets),
    ensures
        decode_all(frames(packets)) == (packets, Seq::<u8>::empty()),
    decreases packets.len(),
{
    if packets.len() == 0 {
        assert(!frame_complete(Seq::<u8>::empty()));
    } else {
        let tail = packets.drop_first();
        assert(all_fit(tail)) by {
            assert forall|i: int| 0 <= i < tail.len() implies #[trigger] tail[i].len() <= max_packet_len() by {
                assert(tail[i] == packets[i + 1]);
            }
        }
        lemma_packets_in_order(tail);
        assert(packets[0].len() <= max_packet_len());
        lemma_frame_round_trip(packets[0], frames(tail));
        assert(seq![packets[0]] + tail =~= packets);
    }
}

/// Of packets sent back to back, followed by anything, the first whole
/// packet is the first one sent, and what stays held is the others, still
/// framed, followed by the same rest. With the contract of
/// `PacketAssembly::next_packet`, the i-th packet received is the i-th sent.
pub proof fn lemma_first_of_frames(packets: Seq<Seq<u8>>, rest: Seq<u8>)
    requires
        all_fit(packets),
        packets.len() > 0,
    ensures
        decode_frame(frames(packets) + rest) == Some((packets[0], frames(packets.drop_first()) + rest)),
{
    assert(packets[0].len() <= max_packet_len());
    let tail = frames(packets.drop_first());
    lemma_frame_round_trip(packets[0], tail + rest);
    assert(frames(packets) + rest =~= frame(packets[0]) + (tail + rest));
}

/// Decoding `s` then `c` after the bytes left over gives what decoding them
/// joined gives.
pub proof fn lemma_decode_append(s: Seq<u8>, c: Seq<u8>)
    ensures
        decode_all(s + c) == (
            decode_all(s).0 + decode_all(decode_all(s).1 + c).0,
            decode_all(decode_all(s).1 + c).1,
        ),
    decreases s.len(),
{
    if frame_complete(s) {
        let e = frame_end(s);
        let rest = s.subrange(e, s.len() as int);
        lemma_decode_append(rest, c);
        let sc = s + c;
        assert(sc.take(4) =~= s.take(4));
        assert(sc[0] == s[0] && sc[1] == s[1] && sc[2] == s[2] && sc[3] == s[3]);
        assert(frame_complete(sc));
        assert(frame_end(sc) == e);
        assert(sc.subrange(4, e) =~= s.subrange(4, e));
        assert(sc.subrange(e, sc.len() as int) =~= rest + c);
        let p = seq![s.subrange(4, e)];
        let r = decode_all(rest);
        let rc = decode_all(r.1 + c);
        assert(p + (r.0 + rc.0) =~= (p + r.0) + rc.0);
    } else {
        assert(decode_all(s).1 == s);
        assert(decode_all(s).0 + decode_all(s + c).0 =~= decode_all(s + c).0);
    }
}

/// However the stream is cut into chunks, the receiver hands out the same
/// packets and holds the same leftover as when it gets the stream whole.
pub proof fn lemma_chunk_boundaries(chunks: Seq<Seq<u8>>)
    ensures
        receive_chunks(chunks) == decode_all(concat(chunks)),
    decreases chunks.len(),
{
    if chunks.len() == 0 {
        assert(!frame_complete(Seq::<u8>::empty()));
    } else {
        let init = chunks.drop_last();
        lemma_chunk_boundaries(init);
        lemma_decode_append(concat(init), chunks.last());
    }
}

} // verus!
