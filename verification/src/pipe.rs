use vstd::prelude::*;

verus! {

/// The reading end of a pipe of byte chunks: it holds the chunk that is
/// being read. The channel that brings the chunks is its driver's.
#[derive(Debug)]
pub struct PipeReader {
    buffer: Vec<u8>,
    taken: usize,
}

/// The writing end of a pipe of byte chunks: it counts what went in.
#[derive(Debug)]
pub struct PipeWriter {
    written: u64,
}

/// The two ends of a pipe at their start: nothing written, nothing to read.
pub fn create_pipe() -> (ends: (PipeWriter, PipeReader))
    ensures
        ends.0@ == 0,
        ends.1@ == Seq::<u8>::empty(),
{
    let reader = PipeReader { buffer: Vec::new(), taken: 0 };
    assert(reader@ =~= Seq::<u8>::empty());
    (PipeWriter { written: 0 }, reader)
}

impl View for PipeWriter {
    type V = nat;

    closed spec fn view(&self) -> nat {
        self.written as nat
    }
}

impl PipeWriter {
    /// How many bytes went into the pipe.
    pub fn written(&self) -> (n: u64)
        ensures
            n == self@,
    {
        self.written
    }

    /// Counts a chunk of `n` bytes that went into the pipe.
    pub fn record(&mut self, n: usize)
        requires
            old(self)@ + n <= u64::MAX,
        ensures
            final(self)@ == old(self)@ + n,
    {
        self.written = self.written + n as u64;
    }
}

impl View for PipeReader {
    type V = Seq<u8>;

    /// The bytes of the current chunk that are still to be read.
    closed spec fn view(&self) -> Seq<u8> {
        self.buffer@.skip(self.taken as int)
    }
}

impl PipeReader {
    #[verifier::type_invariant]
    spec fn inv(self) -> bool {
        self.taken <= self.buffer@.len()
    }

    /// Whether the current chunk is used up, so that the next read needs
    /// the next chunk.
    pub fn is_empty(&self) -> (r: bool)
        ensures
            r == (self@.len() == 0),
    {
        proof {
            use_type_invariant(self);
        }
        self.taken == self.buffer.len()
    }

    /// Takes the next chunk in, in place of what was left of the last one.
    pub fn refill(&mut self, chunk: Vec<u8>)
        ensures
            final(self)@ == chunk@,
    {
        proof {
            use_type_invariant(&*self);
        }
        self.taken = 0;
        self.buffer = chunk;
        assert(self@ =~= chunk@);
    }

    /// Moves bytes of the current chunk into the front of `buf`: as many as
    /// are left and fit. Returns how many.
    pub fn read(&mut self, buf: &mut [u8]) -> (n: usize)
        ensures
            n == (if old(buf)@.len() <= old(self)@.len() {
                old(buf)@.len()
            } else {
                old(self)@.len()
            }),
            final(buf)@ == old(self)@.take(n as int) + old(buf)@.skip(n as int),
            final(self)@ == old(self)@.skip(n as int),
    {
        proof {
            use_type_invariant(&*self);
        }
        let total = self.buffer.len();
        let left = total - self.taken;
        let n = if buf.len() < left {
            buf.len()
        } else {
            left
        };
        let start = self.taken;
        let mut i: usize = 0;
        while i < n
            invariant
                i <= n,
                start + n <= self.buffer@.len(),
                total == self.buffer@.len(),
                n <= buf@.len(),
                buf@.len() == old(buf)@.len(),
                forall|j: int| 0 <= j < i ==> buf@[j] == self.buffer@[start + j],
                forall|j: int| i <= j < buf@.len() ==> buf@[j] == old(buf)@[j],
            decreases n - i,
        {
            buf[i] = self.buffer[start + i];
            i += 1;
        }
        self.taken = start + n;
        proof {
            assert(self@ =~= old(self)@.skip(n as int));
            assert(buf@ =~= old(self)@.take(n as int) + old(buf)@.skip(n as int));
        }
        n
    }
}

} // verus!
