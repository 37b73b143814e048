//! Interleaving of the output and error workers.
//!
//! The child's two output streams run on concurrent workers whose writes
//! interleave in an arbitrary order. This module models one such schedule
//! as a sequence of role-tagged chunks and shows that, however the two
//! streams interleave, each stream's sinks receive that stream's bytes
//! alone, in that stream's own order.

use vstd::prelude::*;
use crate::chunk::Chunk;
use crate::sink::{all_healthy, write_to_all, IoError, MemSink};

verus! {

/// Which of the three standard channels a component instance operates on.
#[derive(Clone, Copy, Debug, PartialEq, Eq, Structural)]
pub enum StreamRole {
    Input,
    Output,
    Error,
}

/// One write of a schedule: a chunk produced on one stream.
pub struct TaggedChunk {
    pub role: StreamRole,
    pub chunk: Chunk,
}

/// The bytes a schedule delivers to the given stream: the concatenation of
/// that stream's chunks in schedule order, other streams' chunks skipped.
pub open spec fn stream_bytes(items: Seq<TaggedChunk>, role: StreamRole) -> Seq<u8>
    decreases items.len(),
{
    if items.len() == 0 {
        Seq::<u8>::empty()
    } else {
        stream_bytes(items.drop_last(), role) + (if items.last().role == role {
            items.last().chunk.bytes()
        } else {
            Seq::<u8>::empty()
        })
    }
}

/// Replays one interleaved schedule of output and error writes against the
/// two streams' sink sets. Every output sink receives exactly the output
/// stream's bytes in schedule order, every error sink exactly the error
/// stream's, however the two interleave.
pub fn tee_interleaved(
    items: &Vec<TaggedChunk>,
    out_sinks: &mut Vec<MemSink>,
    err_sinks: &mut Vec<MemSink>,
) -> (r: Result<(), IoError>)
    requires
        forall|i: int| 0 <= i < items@.len() ==> (#[trigger] items@[i]).chunk.wf(),
        all_healthy(old(out_sinks)@),
        all_healthy(old(err_sinks)@),
    ensures
        r is Ok,
        final(out_sinks)@.len() == old(out_sinks)@.len(),
        final(err_sinks)@.len() == old(err_sinks)@.len(),
        forall|i: int|
            0 <= i < old(out_sinks)@.len() ==> final(out_sinks)@[i].bytes() == old(
                out_sinks,
            )@[i].bytes() + stream_bytes(items@, StreamRole::Output),
        forall|i: int|
            0 <= i < old(err_sinks)@.len() ==> final(err_sinks)@[i].bytes() == old(
                err_sinks,
            )@[i].bytes() + stream_bytes(items@, StreamRole::Error),
{
    let n = items.len();
    let mut j: usize = 0;
    while j < n
        invariant
            j <= n,
            n == items@.len(),
            forall|i: int| 0 <= i < items@.len() ==> (#[trigger] items@[i]).chunk.wf(),
            all_healthy(out_sinks@),
            all_healthy(err_sinks@),
            out_sinks@.len() == old(out_sinks)@.len(),
            err_sinks@.len() == old(err_sinks)@.len(),
            forall|i: int|
                0 <= i < old(out_sinks)@.len() ==> out_sinks@[i].bytes() == old(
                    out_sinks,
                )@[i].bytes() + stream_bytes(items@.take(j as int), StreamRole::Output),
            forall|i: int|
                0 <= i < old(err_sinks)@.len() ==> err_sinks@[i].bytes() == old(
                    err_sinks,
                )@[i].bytes() + stream_bytes(items@.take(j as int), StreamRole::Error),
        decreases n - j,
    {
        proof {
            assert(items@.take(j + 1).drop_last() =~= items@.take(j as int));
            assert(items@.take(j + 1).last() == items@[j as int]);
        }
        let item = &items[j];
        let wrote = match item.role {
            StreamRole::Output => write_to_all(out_sinks, item.chunk.data()),
            StreamRole::Error => write_to_all(err_sinks, item.chunk.data()),
            StreamRole::Input => Ok(()),
        };
        match wrote {
            Ok(()) => {},
            Err(e) => {
                return Err(e);
            },
        }
        j = j + 1;
    }
    proof {
        assert(items@.take(n as int) =~= items@);
    }
    Ok(())
}

} // verus!
