use vstd::prelude::*;

verus! {

/// Growable byte buffer that collects the compressed chunks the engine's
/// write callback hands over during a single encode call.  Chunks are
/// concatenated verbatim, in call order; the adapter clears the buffer at
/// the start of every encode call and copies it out at the end.
pub struct OutputAccumulator {
    bytes: Vec<u8>,
}

impl View for OutputAccumulator {
    type V = Seq<u8>;

    closed spec fn view(&self) -> Seq<u8> {
        self.bytes@
    }
}

impl OutputAccumulator {
    /// A fresh, empty accumulator.
    pub fn new() -> (r: OutputAccumulator)
        ensures
            r@ == Seq::<u8>::empty(),
    {
        OutputAccumulator { bytes: Vec::new() }
    }

    /// Removes every byte held; called once before samples are submitted.
    pub fn clear(&mut self)
        ensures
            final(self)@ == Seq::<u8>::empty(),
    {
        self.bytes.clear();
    }

    /// Appends a chunk verbatim: the new contents are the old contents
    /// followed by the chunk, byte for byte.
    pub fn append(&mut self, chunk: &[u8])
        ensures
            final(self)@ == old(self)@ + chunk@,
    {
        let n: usize = chunk.len();
        let mut i: usize = 0;
        while i < n
            invariant
                i <= n,
                n == chunk@.len(),
                self@ == old(self)@ + chunk@.subrange(0, i as int),
            decreases n - i,
        {
            let b: u8 = chunk[i];
            self.bytes.push(b);
            proof {
                assert(self@ =~= old(self)@ + chunk@.subrange(0, i + 1));
            }
            i = i + 1;
        }
        proof {
            assert(chunk@.subrange(0, n as int) =~= chunk@);
        }
    }

    /// Number of bytes currently held.
    pub fn len(&self) -> (n: usize)
        ensures
            n == self@.len(),
    {
        self.bytes.len()
    }

    /// The byte at a given position.
    pub fn byte_at(&self, i: usize) -> (b: u8)
        requires
            i < self@.len(),
        ensures
            b == self@[i as int],
    {
        self.bytes[i]
    }

    /// Returns a copy of the current contents without mutating them.
    pub fn snapshot(&self) -> (r: Vec<u8>)
        ensures
            r@ == self@,
    {
        let n: usize = self.bytes.len();
        let mut out: Vec<u8> = Vec::new();
        let mut i: usize = 0;
        while i < n
            invariant
                i <= n,
                n == self@.len(),
                out@ == self@.subrange(0, i as int),
            decreases n - i,
        {
            out.push(self.bytes[i]);
            proof {
                assert(out@ =~= self@.subrange(0, i + 1));
            }
            i = i + 1;
        }
        proof {
            assert(self@.subrange(0, n as int) =~= self@);
        }
        out
    }
}

} // verus!
