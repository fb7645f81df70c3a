use vstd::prelude::*;
use crate::util::data_buffer::{clamped, DataBuffer};

verus! {

/// Whether a packet buffer got all of its bytes.
#[derive(Debug, PartialEq, Eq, Structural)]
pub enum PacketState {
    Finished,
    RequiresData,
}

/// Destination for the payload of one packet whose size is known: a
/// zero-filled buffer of that size and a write position.
#[derive(Clone)]
pub struct PacketBuffer {
    buffer: Vec<u8>,
    current_pos: usize,
}

impl PacketBuffer {
    pub open spec fn wf(&self) -> bool {
        self.written() <= self.size()
    }

    /// The whole buffer, written or not.
    pub closed spec fn contents(&self) -> Seq<u8> {
        self.buffer@
    }

    /// The write position.
    pub closed spec fn written(&self) -> nat {
        self.current_pos as nat
    }

    /// The size the packet will have.
    pub open spec fn size(&self) -> nat {
        self.contents().len()
    }

    /// The bytes written so far.
    pub open spec fn filled(&self) -> Seq<u8> {
        self.contents().take(self.written() as int)
    }

    pub open spec fn is_finished(&self) -> bool {
        self.filled().len() == self.size()
    }

    pub fn new(capacity: usize) -> (r: Self)
        ensures
            r.wf(),
            r.size() == capacity,
            r.filled() == Seq::<u8>::empty(),
            r.contents() == Seq::new(capacity as nat, |i: int| 0u8),
    {
        let r = Self { buffer: vec![0u8; capacity], current_pos: 0 };
        assert(r.filled() =~= Seq::<u8>::empty());
        assert(r.contents() =~= Seq::new(capacity as nat, |i: int| 0u8));
        r
    }

    /// The packet; once finished, exactly the bytes written.
    pub fn into_vec(self) -> (r: Vec<u8>)
        requires
            self.wf(),
        ensures
            r@.len() == self.size(),
            r@.take(self.filled().len() as int) == self.filled(),
            self.is_finished() ==> r@ == self.filled(),
    {
        let r = self.buffer;
        assert(self.is_finished() ==> r@ =~= self.filled());
        r
    }

    fn packet_size(&self) -> (r: usize)
        ensures
            r == self.size(),
    {
        self.buffer.len()
    }

    fn remaining_space(&self) -> (r: usize)
        requires
            self.wf(),
        ensures
            r == self.size() - self.filled().len(),
    {
        self.packet_size() - self.current_pos
    }

    /// Moves as many bytes of `data`'s window into the packet as it still
    /// has room for. `Finished` once the packet holds all of its bytes;
    /// otherwise `data` is empty and more bytes are needed.
    pub fn fill(&mut self, data: &mut DataBuffer) -> (r: PacketState)
        requires
            old(self).wf(),
            old(data).wf(),
        ensures
            final(self).wf(),
            final(data).wf(),
            final(self).size() == old(self).size(),
            final(data).storage() == old(data).storage(),
            ({
                let k = clamped(old(self).size() - old(self).filled().len(), old(data).window().len() as int);
                &&& final(self).filled() == old(self).filled() + old(data).window().take(k)
                &&& final(data).window() == old(data).window().skip(k)
            }),
            r == PacketState::Finished <==> final(self).is_finished(),
            r == PacketState::RequiresData ==> final(data).window().len() == 0,
    {
        let space = self.remaining_space();
        if space == 0 {
            proof {
                assert(data.window().take(0) =~= Seq::<u8>::empty());
                assert(data.window().skip(0) =~= data.window());
                assert(self.filled() + data.window().take(0) =~= self.filled());
            }
            return PacketState::Finished;
        }
        let ghost old_filled = self.filled();
        let src = data.take(space);
        let n = src.len();
        let start = self.current_pos;
        let len = self.buffer.len();
        assert(start + n <= len);
        let mut i: usize = 0;
        while i < n
            invariant
                0 <= i <= n,
                n == src@.len(),
                start + n <= len,
                len == self.buffer@.len(),
                self.current_pos == start,
                self.buffer@.len() == old(self).buffer@.len(),
                self.buffer@.take(start as int) == old_filled,
                forall|j: int| 0 <= j < i ==> self.buffer@[start + j] == src@[j],
            decreases n - i,
        {
            self.buffer.set(start + i, src[i]);
            proof {
                assert(self.buffer@.take(start as int) =~= old_filled);
            }
            i = i + 1;
        }
        self.current_pos = start + n;
        assert(self.filled() =~= old_filled + src@);
        if self.current_pos < self.buffer.len() {
            PacketState::RequiresData
        } else {
            PacketState::Finished
        }
    }
}

} // verus!
