//! Write destinations and the ordered fan-out of one chunk to all of them.

use vstd::prelude::*;

verus! {

/// A read or write failure on a stream.
#[derive(Clone, Copy, Debug, PartialEq, Eq, Structural)]
pub struct IoError;

/// An in-memory write destination.
///
/// It records every byte accepted so far, in order. A broken sink rejects
/// every write and keeps its contents unchanged, which models a destination
/// whose writes fail.
pub struct MemSink {
    data: Vec<u8>,
    broken: bool,
}

/// All sinks of the list accept writes.
pub open spec fn all_healthy(sinks: Seq<MemSink>) -> bool {
    forall|i: int| 0 <= i < sinks.len() ==> !sinks[i].is_broken()
}

/// The first `n` sinks of the list accept writes.
pub open spec fn healthy_prefix(sinks: Seq<MemSink>, n: int) -> bool {
    forall|i: int| 0 <= i < n ==> !sinks[i].is_broken()
}

impl MemSink {
    /// The bytes written to this sink so far, in order.
    pub closed spec fn bytes(&self) -> Seq<u8> {
        self.data@
    }

    /// Whether writes to this sink fail.
    pub closed spec fn is_broken(&self) -> bool {
        self.broken
    }

    /// An empty sink that accepts writes.
    pub fn new() -> (s: MemSink)
        ensures
            s.bytes() == Seq::<u8>::empty(),
            !s.is_broken(),
    {
        MemSink { data: Vec::new(), broken: false }
    }

    /// An empty sink whose writes all fail.
    pub fn new_broken() -> (s: MemSink)
        ensures
            s.bytes() == Seq::<u8>::empty(),
            s.is_broken(),
    {
        MemSink { data: Vec::new(), broken: true }
    }

    /// A healthy sink already holding the given bytes, such as a log file
    /// that existing contents are appended to.
    pub fn with_contents(data: Vec<u8>) -> (s: MemSink)
        ensures
            s.bytes() == data@,
            !s.is_broken(),
    {
        MemSink { data, broken: false }
    }

    /// The bytes written so far.
    pub fn contents(&self) -> (d: &Vec<u8>)
        ensures
            d@ == self.bytes(),
    {
        &self.data
    }

    /// Appends the given bytes, exactly once and in order; a broken sink
    /// fails and is left unchanged.
    pub fn write_all(&mut self, data: &[u8]) -> (r: Result<(), IoError>)
        ensures
            final(self).is_broken() == old(self).is_broken(),
            !old(self).is_broken() ==> r is Ok && final(self).bytes() == old(self).bytes() + data@,
            old(self).is_broken() ==> r is Err && final(self).bytes() == old(self).bytes(),
    {
        if self.broken {
            return Err(IoError);
        }
        let n = data.len();
        let mut i: usize = 0;
        while i < n
            invariant
                i <= n,
                n == data@.len(),
                self.broken == old(self).broken,
                self.data@ == old(self).data@ + data@.subrange(0, i as int),
            decreases n - i,
        {
            let b = *vstd::slice::slice_index_get(data, i);
            self.data.push(b);
            i = i + 1;
            proof {
                assert(self.data@ =~= old(self).data@ + data@.subrange(0, i as int));
            }
        }
        proof {
            assert(self.data@ =~= old(self).data@ + data@);
        }
        Ok(())
    }
}

/// Writes one byte range to every sink in list order, stopping at the first
/// failure: sinks before the first broken one receive the bytes, the broken
/// one and all later ones are left untouched.
pub fn write_to_all(sinks: &mut Vec<MemSink>, data: &[u8]) -> (r: Result<(), IoError>)
    ensures
        final(sinks)@.len() == old(sinks)@.len(),
        forall|i: int|
            0 <= i < old(sinks)@.len() ==> final(sinks)@[i].is_broken() == old(
                sinks,
            )@[i].is_broken(),
        r is Ok <==> all_healthy(old(sinks)@),
        forall|i: int|
            0 <= i < old(sinks)@.len() ==> final(sinks)@[i].bytes() == (if healthy_prefix(
                old(sinks)@,
                i + 1,
            ) {
                old(sinks)@[i].bytes() + data@
            } else {
                old(sinks)@[i].bytes()
            }),
{
    let n = sinks.len();
    let mut i: usize = 0;
    while i < n
        invariant
            i <= n,
            n == old(sinks)@.len(),
            sinks@.len() == n,
            healthy_prefix(old(sinks)@, i as int),
            forall|k: int| 0 <= k < n ==> sinks@[k].is_broken() == old(sinks)@[k].is_broken(),
            forall|k: int| 0 <= k < i ==> sinks@[k].bytes() == old(sinks)@[k].bytes() + data@,
            forall|k: int| i <= k < n ==> sinks@[k].bytes() == old(sinks)@[k].bytes(),
        decreases n - i,
    {
        let s = &mut sinks[i];
        match s.write_all(data) {
            Ok(()) => {},
            Err(e) => {
                return Err(e);
            },
        }
        i = i + 1;
    }
    Ok(())
}

} // verus!
