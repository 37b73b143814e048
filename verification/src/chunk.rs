//! The unit of byte transfer between a source and its sinks.

use vstd::prelude::*;
use vstd::slice::slice_subrange;

verus! {

/// Capacity of a chunk's backing buffer, in bytes.
pub const CHUNK_SIZE: usize = 1024;

/// A fixed-capacity byte buffer paired with a valid-length marker.
/// A valid length of zero denotes end-of-source.
pub struct Chunk {
    buf: Vec<u8>,
    len: usize,
}

impl Chunk {
    /// The backing buffer has the fixed capacity and the marker stays within it.
    pub closed spec fn wf(&self) -> bool {
        self.buf@.len() == CHUNK_SIZE && self.len <= CHUNK_SIZE
    }

    /// The bytes the chunk carries: the valid prefix of its buffer.
    pub closed spec fn bytes(&self) -> Seq<u8> {
        self.buf@.subrange(0, self.len as int)
    }

    /// A chunk of length zero marks the end of the source.
    pub open spec fn is_end(&self) -> bool {
        self.bytes().len() == 0
    }

    /// An end-of-source marker.
    pub fn end() -> (c: Chunk)
        ensures
            c.wf(),
            c.bytes() == Seq::<u8>::empty(),
            c.is_end(),
    {
        let c = Chunk { buf: vec![0u8; CHUNK_SIZE], len: 0 };
        proof {
            assert(c.bytes() =~= Seq::<u8>::empty());
        }
        c
    }

    /// A chunk carrying a copy of the given bytes.
    pub fn from_slice(data: &[u8]) -> (c: Chunk)
        requires
            data@.len() <= CHUNK_SIZE,
        ensures
            c.wf(),
            c.bytes() == data@,
    {
        let mut buf: Vec<u8> = vec![0u8; CHUNK_SIZE];
        let n = data.len();
        let mut i: usize = 0;
        while i < n
            invariant
                i <= n,
                n == data@.len(),
                n <= CHUNK_SIZE,
                buf@.len() == CHUNK_SIZE,
                forall|k: int| 0 <= k < i ==> buf@[k] == data@[k],
            decreases n - i,
        {
            let b = *vstd::slice::slice_index_get(data, i);
            buf.set(i, b);
            i = i + 1;
        }
        let c = Chunk { buf, len: n };
        proof {
            assert(c.bytes() =~= data@);
        }
        c
    }

    /// A fresh chunk carrying the same bytes.
    pub fn duplicate(&self) -> (c: Chunk)
        requires
            self.wf(),
        ensures
            c.wf(),
            c.bytes() == self.bytes(),
    {
        Chunk::from_slice(self.data())
    }

    /// The number of valid bytes.
    pub fn len(&self) -> (n: usize)
        requires
            self.wf(),
        ensures
            n == self.bytes().len(),
    {
        self.len
    }

    /// The valid bytes, as a borrowed slice.
    pub fn data(&self) -> (d: &[u8])
        requires
            self.wf(),
        ensures
            d@ == self.bytes(),
    {
        slice_subrange(self.buf.as_slice(), 0, self.len)
    }
}

} // verus!
