//! Copying bytes from one source to an ordered set of sinks.

use vstd::prelude::*;
use vstd::slice::slice_subrange;
use crate::chunk::{Chunk, CHUNK_SIZE};
use crate::sink::{all_healthy, healthy_prefix, write_to_all, IoError, MemSink};

verus! {

/// How many bytes the next chunk read from a source with `rem` bytes left
/// carries: a full buffer, or whatever is left.
pub open spec fn next_chunk_len(rem: Seq<u8>) -> int {
    if rem.len() <= CHUNK_SIZE {
        rem.len() as int
    } else {
        CHUNK_SIZE as int
    }
}

/// An in-memory byte source, read chunk by chunk until exhausted.
pub struct MemSource {
    data: Vec<u8>,
    pos: usize,
}

impl MemSource {
    /// The read position stays within the data.
    pub closed spec fn wf(&self) -> bool {
        self.pos <= self.data@.len()
    }

    /// The bytes not yet read.
    pub closed spec fn remaining(&self) -> Seq<u8> {
        self.data@.subrange(self.pos as int, self.data@.len() as int)
    }

    /// A source that will yield the given bytes.
    pub fn new(data: Vec<u8>) -> (s: MemSource)
        ensures
            s.wf(),
            s.remaining() == data@,
    {
        let s = MemSource { data, pos: 0 };
        proof {
            assert(s.remaining() =~= s.data@);
        }
        s
    }

    /// Reads the next chunk. The returned chunk carries the next
    /// `next_chunk_len` bytes; an empty chunk means the source is exhausted.
    pub fn read_chunk(&mut self) -> (c: Chunk)
        requires
            old(self).wf(),
        ensures
            final(self).wf(),
            c.wf(),
            c.bytes() == old(self).remaining().take(next_chunk_len(old(self).remaining())),
            final(self).remaining() == old(self).remaining().skip(
                next_chunk_len(old(self).remaining()),
            ),
            c.is_end() <==> old(self).remaining().len() == 0,
    {
        let avail = self.data.len() - self.pos;
        let n = if avail < CHUNK_SIZE {
            avail
        } else {
            CHUNK_SIZE
        };
        let piece = slice_subrange(self.data.as_slice(), self.pos, self.pos + n);
        let c = Chunk::from_slice(piece);
        self.pos = self.pos + n;
        proof {
            assert(c.bytes() =~= old(self).remaining().take(next_chunk_len(old(self).remaining())));
            assert(self.remaining() =~= old(self).remaining().skip(
                next_chunk_len(old(self).remaining()),
            ));
        }
        c
    }
}

/// What a read from a live source produced: a chunk (possibly the
/// end-of-source marker), a transient interruption, or a failure of the
/// read mechanism itself.
pub enum ReadEvent {
    Data(Chunk),
    Interrupted,
    Failed,
}

/// The chunk a read event carries, if any, is well-formed.
pub open spec fn read_event_wf(ev: ReadEvent) -> bool {
    ev matches ReadEvent::Data(c) ==> c.wf()
}

/// What the tee loop does next in answer to one read event.
pub enum TeeAction {
    /// Write this chunk to every sink in order, then read again.
    Forward(Chunk),
    /// The read was interrupted; read again, losing nothing.
    Retry,
    /// The source is exhausted; stop with success.
    Finish,
    /// The read mechanism failed; stop with an error.
    Fail,
}

/// The tee loop's decision for one read event. A live loop performs the
/// returned action: this pins down when the loop forwards, retries and
/// stops.
pub fn tee_step(ev: ReadEvent) -> (a: TeeAction)
    requires
        read_event_wf(ev),
    ensures
        ev matches ReadEvent::Data(c) ==> (if c.is_end() {
            a is Finish
        } else {
            a == TeeAction::Forward(c)
        }),
        ev is Interrupted ==> a is Retry,
        ev is Failed ==> a is Fail,
{
    match ev {
        ReadEvent::Data(c) => {
            if c.len() == 0 {
                TeeAction::Finish
            } else {
                TeeAction::Forward(c)
            }
        },
        ReadEvent::Interrupted => TeeAction::Retry,
        ReadEvent::Failed => TeeAction::Fail,
    }
}

/// Copies the source's remaining bytes to every sink, chunk by chunk, in
/// order, until the source is exhausted or a sink write fails.
///
/// With healthy sinks, every sink receives exactly the source's bytes, in
/// order, appended after what it already held. On the first failing write
/// the sinks earlier in the list keep the chunk they already received and
/// later sinks are left untouched.
pub fn tee(source: &mut MemSource, sinks: &mut Vec<MemSink>) -> (r: Result<(), IoError>)
    requires
        old(source).wf(),
    ensures
        final(source).wf(),
        final(sinks)@.len() == old(sinks)@.len(),
        forall|i: int|
            0 <= i < old(sinks)@.len() ==> final(sinks)@[i].is_broken() == old(
                sinks,
            )@[i].is_broken(),
        r is Ok <==> (all_healthy(old(sinks)@) || old(source).remaining().len() == 0),
        r is Ok ==> final(source).remaining().len() == 0 && (forall|i: int|
            0 <= i < old(sinks)@.len() ==> final(sinks)@[i].bytes() == old(sinks)@[i].bytes()
                + old(source).remaining()),
        r is Err ==> final(source).remaining() == old(source).remaining().skip(
            next_chunk_len(old(source).remaining()),
        ) && (forall|i: int|
            0 <= i < old(sinks)@.len() ==> final(sinks)@[i].bytes() == (if healthy_prefix(
                old(sinks)@,
                i + 1,
            ) {
                old(sinks)@[i].bytes() + old(source).remaining().take(
                    next_chunk_len(old(source).remaining()),
                )
            } else {
                old(sinks)@[i].bytes()
            })),
{
    loop
        invariant
            source.wf(),
            sinks@.len() == old(sinks)@.len(),
            forall|k: int|
                0 <= k < old(sinks)@.len() ==> sinks@[k].is_broken() == old(
                    sinks,
                )@[k].is_broken(),
            source.remaining().len() <= old(source).remaining().len(),
            source.remaining() == old(source).remaining().skip(
                old(source).remaining().len() - source.remaining().len(),
            ),
            forall|k: int|
                0 <= k < old(sinks)@.len() ==> sinks@[k].bytes() == old(sinks)@[k].bytes() + old(
                    source,
                ).remaining().take(old(source).remaining().len() - source.remaining().len()),
            !all_healthy(old(sinks)@) ==> source.remaining() == old(source).remaining(),
        decreases source.remaining().len(),
    {
        let ghost rem_before = source.remaining();
        let ghost done_before = old(source).remaining().len() - rem_before.len();
        let c = source.read_chunk();
        match tee_step(ReadEvent::Data(c)) {
            TeeAction::Finish => {
                proof {
                    assert(old(source).remaining().take(old(source).remaining().len() as int)
                        =~= old(source).remaining());
                }
                return Ok(());
            },
            TeeAction::Forward(d) => {
                match write_to_all(sinks, d.data()) {
                    Ok(()) => {
                        proof {
                            let done = old(source).remaining().len() - source.remaining().len();
                            assert(old(source).remaining().take(done_before) + rem_before.take(
                                next_chunk_len(rem_before),
                            ) =~= old(source).remaining().take(done));
                            assert(source.remaining() =~= old(source).remaining().skip(done));
                        }
                    },
                    Err(e) => {
                        return Err(e);
                    },
                }
            },
            // A read from memory neither interrupts nor fails, so the
            // remaining actions never come up here.
            TeeAction::Retry => {},
            TeeAction::Fail => {
                return Err(IoError);
            },
        }
    }
}

} // verus!
