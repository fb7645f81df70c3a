use vstd::prelude::*;
use crate::network::constants::HEADER_SIZE;
use crate::network::framing::{
    decode_frame, decode_header, le_u32_bytes, le_u32_value, lemma_le_u32_bytes_value,
    lemma_le_u32_value_bytes, max_packet_len,
};
use crate::network::packet_connection::packet_buffer::{PacketBuffer, PacketState};
use crate::util::data_buffer::{clamped, DataBuffer};

verus! {

/// Lets `std::io::Error`, which the transport reports, stand in the
/// library's error types; nothing of it is read.
#[verifier::external_type_specification]
#[verifier::external_body]
pub struct ExIoError(std::io::Error);

#[derive(Debug)]
pub enum Error {
    /// The remote end closed the stream.
    ReceivedFin,
    /// The stream closed inside a length header.
    InvalidData,
    /// The transport failed while reading.
    Receive(std::io::Error),
}

/// The length header at the start of `pending` is complete and announces
/// more than `limit` allows.
pub open spec fn header_over_limit(pending: Seq<u8>, limit: Option<usize>) -> bool {
    &&& pending.len() >= 4
    &&& (limit matches Some(max) && le_u32_value(pending) > max)
}

/// Rebuilds packets from a byte stream read in chunks of any size into one
/// fixed receive buffer. The transport is driven from outside: while
/// `next_packet` returns `Ok(None)`, write the next chunk into
/// `receive_buffer()` and report its length to `chunk_received`.
#[derive(Clone)]
pub struct PacketAssembly {
    buffer: DataBuffer,
    header: Vec<u8>,
    packet: Option<PacketBuffer>,
    max_packet_size: Option<usize>,
}

impl PacketAssembly {
    pub closed spec fn wf(&self) -> bool {
        &&& self.buffer.wf()
        &&& match self.packet {
            None => self.header@.len() < 4,
            Some(p) => {
                &&& p.wf()
                &&& p.size() <= max_packet_len()
                &&& self.header@.len() == 0
                &&& (self.max_packet_size matches Some(max) ==> p.size() <= max)
            },
        }
    }

    /// The largest packet accepted, if there is a bound.
    pub closed spec fn limit(&self) -> Option<usize> {
        self.max_packet_size
    }

    /// Bytes received and not yet handed out as a packet, in stream order.
    pub closed spec fn pending(&self) -> Seq<u8> {
        match self.packet {
            None => self.header@ + self.buffer.window(),
            Some(p) => le_u32_bytes(p.size()) + p.filled() + self.buffer.window(),
        }
    }

    /// Every byte received has moved out of the receive buffer.
    pub closed spec fn awaiting_data(&self) -> bool {
        self.buffer.window().len() == 0
    }

    pub closed spec fn capacity(&self) -> nat {
        self.buffer.capacity()
    }

    /// What the receive buffer holds.
    pub closed spec fn receive_storage(&self) -> Seq<u8> {
        self.buffer.storage()
    }

    /// An assembly that accepts packets of any length.
    pub fn new(buffer_size: usize) -> (r: PacketAssembly)
        ensures
            r.wf(),
            r.capacity() == buffer_size,
            r.pending() == Seq::<u8>::empty(),
            r.awaiting_data(),
            r.limit() is None,
    {
        let r = PacketAssembly {
            buffer: DataBuffer::new(buffer_size),
            header: Vec::new(),
            packet: None,
            max_packet_size: None,
        };
        assert(r.pending() =~= Seq::<u8>::empty());
        r
    }

    /// An assembly that refuses packets longer than `max_packet_size`.
    pub fn with_max_packet_size(buffer_size: usize, max_packet_size: usize) -> (r: PacketAssembly)
        ensures
            r.wf(),
            r.capacity() == buffer_size,
            r.pending() == Seq::<u8>::empty(),
            r.awaiting_data(),
            r.limit() == Some(max_packet_size),
    {
        let r = PacketAssembly {
            buffer: DataBuffer::new(buffer_size),
            header: Vec::new(),
            packet: None,
            max_packet_size: Some(max_packet_size),
        };
        assert(r.pending() =~= Seq::<u8>::empty());
        r
    }

    /// The next packet, if the bytes held make a whole one; it leaves the
    /// pending bytes. Otherwise all received bytes have been taken up and
    /// the next chunk is needed. A header announcing more than the limit is
    /// `InvalidData`.
    pub fn next_packet(&mut self) -> (r: Result<Option<Vec<u8>>, Error>)
        requires
            old(self).wf(),
        ensures
            final(self).wf(),
            final(self).capacity() == old(self).capacity(),
            final(self).limit() == old(self).limit(),
            header_over_limit(old(self).pending(), old(self).limit()) ==> (r matches Err(e) && e is InvalidData),
            !header_over_limit(old(self).pending(), old(self).limit()) ==> match decode_frame(old(self).pending()) {
                Some((payload, rest)) => r matches Ok(Some(v)) && v@ == payload && final(self).pending() == rest,
                None => r matches Ok(None) && final(self).pending() == old(self).pending()
                    && final(self).awaiting_data(),
            },
    {
        let ghost held = self.pending();
        if self.packet.is_none() {
            match get_packet_size(&mut self.header, &mut self.buffer) {
                None => {
                    assert(self.pending() =~= held);
                    return Ok(None);
                },
                Some(size) => {
                    proof {
                        lemma_le_u32_value_bytes(self.header@);
                        assert(le_u32_bytes(size as nat) + Seq::<u8>::empty() + self.buffer.window() =~= held);
                        assert(held[0] == self.header@[0] && held[1] == self.header@[1] && held[2] == self.header@[2]
                            && held[3] == self.header@[3]);
                    }
                    if let Some(max) = self.max_packet_size {
                        if size > max {
                            self.header = Vec::new();
                            return Err(Error::InvalidData);
                        }
                    }
                    self.header = Vec::new();
                    self.packet = Some(PacketBuffer::new(size));
                    assert(self.pending() =~= held);
                },
            }
        } else {
            proof {
                let p = self.packet->0;
                lemma_le_u32_bytes_value(p.size());
                let hdr = le_u32_bytes(p.size());
                assert(held[0] == hdr[0] && held[1] == hdr[1] && held[2] == hdr[2] && held[3] == hdr[3]);
            }
        }
        let mut packet = self.packet.take().unwrap();
        let ghost before = self.buffer.window();
        let ghost filled0 = packet.filled();
        let state = packet.fill(&mut self.buffer);
        proof {
            let k = clamped(packet.size() - filled0.len(), before.len() as int);
            assert(before.take(k) + before.skip(k) =~= before);
            assert(le_u32_bytes(packet.size()) + packet.filled() + self.buffer.window() =~= held);
            lemma_pending_packet(held, packet.size(), packet.filled(), self.buffer.window());
        }
        match state {
            PacketState::Finished => {
                assert(self.pending() =~= self.buffer.window());
                Ok(Some(packet.into_vec()))
            },
            PacketState::RequiresData => {
                self.packet = Some(packet);
                Ok(None)
            },
        }
    }

    /// The receive buffer, for the transport to write the next chunk into.
    pub fn receive_buffer(&mut self) -> (r: &mut [u8])
        requires
            old(self).wf(),
            old(self).awaiting_data(),
        ensures
            r@.len() == old(self).capacity(),
            final(self).wf(),
            final(self).awaiting_data(),
            final(self).pending() == old(self).pending(),
            final(self).receive_storage() == final(r)@,
            final(self).limit() == old(self).limit(),
            final(self).capacity() == final(r)@.len(),
    {
        let ghost held = self.pending();
        self.buffer.reset_read_window(0);
        assert(self.buffer.window() =~= Seq::<u8>::empty());
        assert(self.pending() =~= held);
        self.buffer.get_mut_buffer()
    }

    /// Records that the transport wrote `n` bytes into the receive buffer.
    /// A count of zero means the stream was closed: inside a length header
    /// that is `InvalidData`, anywhere else `ReceivedFin`.
    pub fn chunk_received(&mut self, n: usize) -> (r: Result<(), Error>)
        requires
            old(self).wf(),
            old(self).awaiting_data(),
            n <= old(self).capacity(),
        ensures
            final(self).wf(),
            final(self).capacity() == old(self).capacity(),
            final(self).limit() == old(self).limit(),
            n == 0 ==> {
                &&& final(self).pending() == old(self).pending()
                &&& final(self).awaiting_data()
                &&& r matches Err(e) && if 0 < old(self).pending().len() < 4 {
                    e is InvalidData
                } else {
                    e is ReceivedFin
                }
            },
            n > 0 ==> r is Ok && final(self).pending() == old(self).pending() + old(self).receive_storage().take(n as int),
    {
        let ghost held = self.pending();
        self.buffer.reset_read_window(n);
        proof {
            if self.packet is None {
                assert(self.pending() =~= held + self.buffer.storage().take(n as int));
            } else {
                assert(self.pending() =~= held + self.buffer.storage().take(n as int));
            }
        }
        if n == 0 {
            assert(self.pending() =~= held);
            if self.packet.is_none() && self.header.len() > 0 {
                return Err(Error::InvalidData);
            }
            return Err(Error::ReceivedFin);
        }
        Ok(())
    }
}

/// Bytes held while a packet of `size` bytes is filled: its header, the
/// payload so far and what follows.
proof fn lemma_pending_packet(pending: Seq<u8>, size: nat, filled: Seq<u8>, window: Seq<u8>)
    requires
        size <= max_packet_len(),
        filled.len() <= size,
        pending == le_u32_bytes(size) + filled + window,
    ensures
        filled.len() == size ==> decode_frame(pending) == Some((filled, window)),
        filled.len() < size && window.len() == 0 ==> decode_frame(pending) is None,
{
    let hdr = le_u32_bytes(size);
    lemma_le_u32_bytes_value(size);
    assert(pending[0] == hdr[0] && pending[1] == hdr[1] && pending[2] == hdr[2] && pending[3] == hdr[3]);
    assert(le_u32_value(pending) == size);
    if filled.len() == size {
        assert(pending.subrange(4, 4 + size as int) =~= filled);
        assert(pending.subrange(4 + size as int, pending.len() as int) =~= window);
    }
}

/// Moves header bytes from `data` into `header` until it holds all four;
/// then the packet size they carry.
fn get_packet_size(header: &mut Vec<u8>, data: &mut DataBuffer) -> (r: Option<usize>)
    requires
        old(header)@.len() < 4,
        old(data).wf(),
    ensures
        final(data).wf(),
        final(data).storage() == old(data).storage(),
        ({
            let k = clamped(4 - old(header)@.len(), old(data).window().len() as int);
            &&& final(header)@ == old(header)@ + old(data).window().take(k)
            &&& final(data).window() == old(data).window().skip(k)
        }),
        final(header)@.len() <= 4,
        r is Some <==> final(header)@.len() == 4,
        r matches Some(size) ==> size == le_u32_value(final(header)@),
{
    let got = data.take(HEADER_SIZE - header.len());
    let ghost h0 = header@;
    let mut i: usize = 0;
    while i < got.len()
        invariant
            0 <= i <= got@.len(),
            h0.len() + got@.len() <= 4,
            header@ == h0 + got@.take(i as int),
        decreases got@.len() - i,
    {
        header.push(got[i]);
        assert(got@.take(i + 1) =~= got@.take(i as int).push(got@[i as int]));
        i = i + 1;
    }
    assert(got@.take(got@.len() as int) =~= got@);
    if header.len() == HEADER_SIZE {
        Some(decode_header(header.as_slice()) as usize)
    } else {
        None
    }
}

} // verus!
