use vstd::prelude::*;

verus! {

/// Number of bytes that `take(count)` or `read(count)` hands out of a window
/// holding `available` bytes.
pub open spec fn clamped(count: int, available: int) -> int {
    if count < available {
        count
    } else {
        available
    }
}

/// Fixed-capacity byte storage with a window `[start, end)` of bytes that
/// were filled in but not yet consumed. No operation reallocates the storage.
#[derive(Clone)]
pub struct DataBuffer {
    buffer: Vec<u8>,
    current_pos: usize,
    end_pos: usize,
}

impl DataBuffer {
    pub open spec fn wf(&self) -> bool {
        0 <= self.start() <= self.end() <= self.capacity()
    }

    /// The whole storage, consumed or not.
    pub closed spec fn storage(&self) -> Seq<u8> {
        self.buffer@
    }

    pub closed spec fn start(&self) -> int {
        self.current_pos as int
    }

    pub closed spec fn end(&self) -> int {
        self.end_pos as int
    }

    pub open spec fn capacity(&self) -> nat {
        self.storage().len()
    }

    /// The bytes available to `read` and `take`.
    pub open spec fn window(&self) -> Seq<u8> {
        self.storage().subrange(self.start(), self.end())
    }

    /// Creates an empty buffer of the given capacity.
    pub fn new(buffer_size: usize) -> (r: Self)
        ensures
            r.wf(),
            r.capacity() == buffer_size,
            r.start() == 0,
            r.end() == 0,
            r.window() == Seq::<u8>::empty(),
    {
        let r = Self { buffer: vec![0u8; buffer_size], current_pos: 0, end_pos: 0 };
        assert(r.window() =~= Seq::<u8>::empty());
        r
    }

    /// Lets `refill_internal_buffer` write into the storage; it returns how many
    /// bytes it wrote, and the window becomes those bytes. A failure is passed
    /// on and leaves the window where it was. A count beyond the capacity is
    /// cut down to the capacity.
    pub fn refill<E>(&mut self, refill_internal_buffer: impl FnOnce(&mut [u8]) -> Result<usize, E>) -> (r: Result<(), E>)
        requires
            old(self).wf(),
            forall|s: &mut [u8]| refill_internal_buffer.requires((s,)),
        ensures
            final(self).wf(),
            exists|s: &mut [u8], filled: Result<usize, E>|
                {
                    &&& s@ == old(self).storage()
                    &&& refill_internal_buffer.ensures((s,), filled)
                    &&& final(self).storage() == final(s)@
                    &&& match filled {
                        Ok(n) => r is Ok && final(self).start() == 0 && final(self).end() == clamped(
                            n as int,
                            final(self).capacity() as int,
                        ),
                        Err(e) => r == Err::<(), E>(e),
                    }
                },
            r is Err && final(self).capacity() == old(self).capacity() ==> final(self).start()
                == old(self).start() && final(self).end() == old(self).end(),
    {
        let storage = self.buffer.as_mut_slice();
        let filled = refill_internal_buffer(storage);
        match filled {
            Ok(n) => {
                let cap = self.buffer.len();
                self.end_pos = if n <= cap { n } else { cap };
                self.current_pos = 0;
                Ok(())
            },
            Err(e) => {
                if self.end_pos > self.buffer.len() {
                    self.end_pos = self.buffer.len();
                    self.current_pos = 0;
                }
                Err(e)
            },
        }
    }

    /// The storage, for a transport to write the next chunk into. Call
    /// `reset_read_window` afterwards with the count it wrote.
    pub fn get_mut_buffer(&mut self) -> (r: &mut [u8])
        requires
            old(self).wf(),
        ensures
            r@ == old(self).storage(),
            final(self).storage() == final(r)@,
            final(self).start() == old(self).start(),
            final(self).end() == old(self).end(),
    {
        self.buffer.as_mut_slice()
    }

    /// Makes the first `end` bytes of the storage the window.
    pub fn reset_read_window(&mut self, end: usize)
        requires
            end <= old(self).capacity(),
        ensures
            final(self).wf(),
            final(self).storage() == old(self).storage(),
            final(self).start() == 0,
            final(self).end() == end,
            final(self).window() == old(self).storage().take(end as int),
    {
        self.current_pos = 0;
        self.end_pos = end;
        assert(self.window() =~= old(self).storage().take(end as int));
    }

    /// The next `count` bytes, or fewer if fewer are available; the window
    /// stays as it is.
    pub fn read(&self, count: usize) -> (r: &[u8])
        requires
            self.wf(),
        ensures
            r@ == self.window().take(clamped(count as int, self.window().len() as int)),
    {
        let start = self.current_pos;
        let end = if count < self.end_pos - self.current_pos {
            self.current_pos + count
        } else {
            self.end_pos
        };
        let r = &self.buffer.as_slice()[start..end];
        assert(r@ =~= self.window().take(clamped(count as int, self.window().len() as int)));
        r
    }

    /// All available bytes; the window stays as it is.
    pub fn read_to_end(&self) -> (r: &[u8])
        requires
            self.wf(),
        ensures
            r@ == self.window(),
    {
        &self.buffer.as_slice()[self.current_pos..self.end_pos]
    }

    /// The next `count` bytes, or fewer if fewer are available; they leave
    /// the window. Asking for more than is available empties the window.
    pub fn take(&mut self, count: usize) -> (r: &[u8])
        requires
            old(self).wf(),
        ensures
            final(self).wf(),
            final(self).storage() == old(self).storage(),
            r@ == old(self).window().take(clamped(count as int, old(self).window().len() as int)),
            final(self).window() == old(self).window().skip(clamped(count as int, old(self).window().len() as int)),
    {
        let start = self.current_pos;
        let end = if count < self.end_pos - self.current_pos {
            self.current_pos + count
        } else {
            self.end_pos
        };
        self.current_pos = end;
        let ghost k = clamped(count as int, old(self).window().len() as int);
        assert(self.window() =~= old(self).window().skip(k));
        let r = &self.buffer.as_slice()[start..end];
        assert(r@ =~= old(self).window().take(k));
        r
    }

    /// All available bytes; the window becomes empty.
    pub fn take_to_end(&mut self) -> (r: &[u8])
        requires
            old(self).wf(),
        ensures
            final(self).wf(),
            final(self).storage() == old(self).storage(),
            r@ == old(self).window(),
            final(self).window() == Seq::<u8>::empty(),
    {
        let start = self.current_pos;
        self.current_pos = self.end_pos;
        assert(self.window() =~= Seq::<u8>::empty());
        &self.buffer.as_slice()[start..self.end_pos]
    }

    pub fn is_empty(&self) -> (r: bool)
        requires
            self.wf(),
        ensures
            r == (self.window().len() == 0),
    {
        self.remaining() == 0
    }

    /// Number of bytes in the window.
    pub fn remaining(&self) -> (r: usize)
        requires
            self.wf(),
        ensures
            r == self.window().len(),
    {
        self.end_pos - self.current_pos
    }

    pub fn get_current_position(&self) -> (r: usize)
        ensures
            r == self.start(),
    {
        self.current_pos
    }

    pub fn get_end_position(&self) -> (r: usize)
        ensures
            r == self.end(),
    {
        self.end_pos
    }
}

} // verus!
