use vstd::prelude::*;
use crate::util::data_buffer::clamped;

verus! {

/// A read cursor over borrowed bytes.
pub struct DataBuffer<'a> {
    data: &'a [u8],
    current_pos: usize,
}

impl<'a> DataBuffer<'a> {
    pub closed spec fn data(&self) -> Seq<u8> {
        self.data@
    }

    pub closed spec fn position(&self) -> int {
        self.current_pos as int
    }

    pub open spec fn wf(&self) -> bool {
        0 <= self.position() <= self.data().len()
    }

    /// The bytes not yet taken.
    pub open spec fn window(&self) -> Seq<u8> {
        self.data().skip(self.position())
    }

    pub fn new(data: &'a [u8]) -> (r: Self)
        ensures
            r.wf(),
            r.data() == data@,
            r.position() == 0,
    {
        Self::with_starting_position(data, 0)
    }

    pub fn with_starting_position(data: &'a [u8], starting_position: usize) -> (r: Self)
        requires
            starting_position <= data@.len(),
        ensures
            r.wf(),
            r.data() == data@,
            r.position() == starting_position,
    {
        Self { data, current_pos: starting_position }
    }

    /// The next `count` bytes, or fewer if fewer are left.
    pub fn read(&self, count: usize) -> (r: &'a [u8])
        requires
            self.wf(),
        ensures
            r@ == self.window().take(clamped(count as int, self.window().len() as int)),
    {
        let start = self.current_pos;
        let end = if count < self.data.len() - start {
            start + count
        } else {
            self.data.len()
        };
        let r = &self.data[start..end];
        assert(r@ =~= self.window().take(clamped(count as int, self.window().len() as int)));
        r
    }

    pub fn read_to_end(&self) -> (r: &'a [u8])
        requires
            self.wf(),
        ensures
            r@ == self.window(),
    {
        let r = &self.data[self.current_pos..self.data.len()];
        assert(r@ =~= self.window());
        r
    }

    /// The next `count` bytes, or fewer if fewer are left; they are passed
    /// over from then on.
    pub fn take(&mut self, count: usize) -> (r: &'a [u8])
        requires
            old(self).wf(),
        ensures
            final(self).wf(),
            final(self).data() == old(self).data(),
            r@ == old(self).window().take(clamped(count as int, old(self).window().len() as int)),
            final(self).window() == old(self).window().skip(clamped(count as int, old(self).window().len() as int)),
    {
        let ret = self.read(count);
        let len = self.data.len();
        self.current_pos = if count < len - self.current_pos {
            self.current_pos + count
        } else {
            len
        };
        assert(self.window() =~= old(self).window().skip(clamped(count as int, old(self).window().len() as int)));
        ret
    }

    pub fn take_to_end(&mut self) -> (r: &'a [u8])
        requires
            old(self).wf(),
        ensures
            final(self).wf(),
            final(self).data() == old(self).data(),
            r@ == old(self).window(),
            final(self).window() == Seq::<u8>::empty(),
    {
        let ret = self.read_to_end();
        self.current_pos = self.data.len();
        assert(self.window() =~= Seq::<u8>::empty());
        ret
    }

    pub fn is_empty(&self) -> (r: bool)
        requires
            self.wf(),
        ensures
            r == (self.window().len() == 0),
    {
        self.remaining() == 0
    }

    pub fn remaining(&self) -> (r: usize)
        requires
            self.wf(),
        ensures
            r == self.window().len(),
    {
        self.data.len() - self.current_pos
    }

    pub fn get_current_position(&self) -> (r: usize)
        ensures
            r == self.position(),
    {
        self.current_pos
    }

    pub fn get_end_position(&self) -> (r: usize)
        ensures
            r == self.data().len(),
    {
        self.data.len()
    }
}

} // verus!
