//! The cancellable input forwarder: a detached reader and a cancellable
//! consumer.
//!
//! The input direction reads from a live source that can block forever, so
//! a reader task that is never joined publishes chunks on a bounded
//! channel, and a consumer task tees them to the input sinks while also
//! watching a one-shot cancellation signal. Cancellation, not source
//! exhaustion, is the consumer's governing termination condition.

use vstd::prelude::*;
use crate::chunk::Chunk;
use crate::sink::{all_healthy, healthy_prefix, write_to_all, IoError, MemSink};
use crate::tee::{read_event_wf, ReadEvent};

verus! {

/// What the detached reader does with one read from the live input source.
pub enum ReaderAction {
    /// Publish this chunk on the data channel, then read again.
    Publish(Chunk),
    /// Publish this end-of-input marker, then stop reading.
    PublishEnd(Chunk),
    /// The read was interrupted; read again, losing nothing.
    Retry,
    /// The input mechanism itself is broken; abort the whole program.
    Abort,
}

/// The reader's decision for one read. A length-zero chunk signals natural
/// end-of-input and is still published, so the consumer learns of it; only
/// a non-interruptible read error aborts.
pub fn reader_step(ev: ReadEvent) -> (a: ReaderAction)
    requires
        read_event_wf(ev),
    ensures
        ev matches ReadEvent::Data(c) ==> (if c.is_end() {
            a == ReaderAction::PublishEnd(c)
        } else {
            a == ReaderAction::Publish(c)
        }),
        ev is Interrupted ==> a is Retry,
        ev is Failed ==> a is Abort,
{
    match ev {
        ReadEvent::Data(c) => {
            if c.len() == 0 {
                ReaderAction::PublishEnd(c)
            } else {
                ReaderAction::Publish(c)
            }
        },
        ReadEvent::Interrupted => ReaderAction::Retry,
        ReadEvent::Failed => ReaderAction::Abort,
    }
}

/// What the consumer's wait returned: the cancellation signal, the loss of
/// the data channel's sender, or a published chunk.
pub enum ConsumerEvent {
    Cancelled,
    Closed,
    Data(Chunk),
}

/// What the consumer does next in answer to one event.
pub enum ConsumerAction {
    /// Stop, successfully.
    Stop,
    /// An end-of-source marker arrived: keep waiting, forwarding nothing.
    Ignore,
    /// Write this chunk to every input sink in order, then keep waiting.
    Forward(Chunk),
}

/// How one consumer step ended.
#[derive(Clone, Copy, Debug, PartialEq, Eq)]
pub enum ConsumerStep {
    /// Keep waiting for the next event.
    Running,
    /// Terminal, with success: the consumer was cancelled or its channel
    /// closed.
    Stopped,
    /// Terminal: a sink write failed.
    Failed(IoError),
}

/// The chunk an event carries, if any, is well-formed.
pub open spec fn event_wf(ev: ConsumerEvent) -> bool {
    ev matches ConsumerEvent::Data(c) ==> c.wf()
}

/// The event ends the consumer: the cancellation signal, or the loss of
/// the data channel.
pub open spec fn is_terminal(ev: ConsumerEvent) -> bool {
    ev is Cancelled || ev is Closed
}

/// The consumer's decision for one event. Cancellation stops it at once,
/// whatever else is pending; an end-of-source chunk is not a termination
/// condition and is forwarded nowhere; any other chunk is teed to the
/// input sinks.
pub fn consumer_decide(ev: ConsumerEvent) -> (a: ConsumerAction)
    requires
        event_wf(ev),
    ensures
        ev is Cancelled ==> a is Stop,
        ev is Closed ==> a is Stop,
        ev matches ConsumerEvent::Data(c) ==> (if c.is_end() {
            a is Ignore
        } else {
            a == ConsumerAction::Forward(c)
        }),
{
    match ev {
        ConsumerEvent::Cancelled => ConsumerAction::Stop,
        ConsumerEvent::Closed => ConsumerAction::Stop,
        ConsumerEvent::Data(c) => {
            if c.len() == 0 {
                ConsumerAction::Ignore
            } else {
                ConsumerAction::Forward(c)
            }
        },
    }
}

/// One step of the consumer against in-memory input sinks.
///
/// Cancellation is terminal with success from any state and touches no
/// sink, however often it arrives; so is the loss of the data channel. An
/// end-of-source chunk changes nothing and the consumer keeps running. Any
/// other chunk is written to every sink in order with the tee's
/// partial-write policy, and the first failing write ends the consumer
/// with that error.
pub fn consumer_step(sinks: &mut Vec<MemSink>, ev: ConsumerEvent) -> (r: ConsumerStep)
    requires
        event_wf(ev),
    ensures
        final(sinks)@.len() == old(sinks)@.len(),
        forall|i: int|
            0 <= i < old(sinks)@.len() ==> final(sinks)@[i].is_broken() == old(
                sinks,
            )@[i].is_broken(),
        ev is Cancelled ==> r is Stopped && final(sinks)@ == old(sinks)@,
        ev is Closed ==> r is Stopped && final(sinks)@ == old(sinks)@,
        ev matches ConsumerEvent::Data(c) ==> (if c.is_end() {
            r is Running && final(sinks)@ == old(sinks)@
        } else {
            (r is Running <==> all_healthy(old(sinks)@)) && (r is Failed <==> !all_healthy(
                old(sinks)@,
            )) && (forall|i: int|
                0 <= i < old(sinks)@.len() ==> final(sinks)@[i].bytes() == (if healthy_prefix(
                    old(sinks)@,
                    i + 1,
                ) {
                    old(sinks)@[i].bytes() + c.bytes()
                } else {
                    old(sinks)@[i].bytes()
                }))
        }),
{
    match consumer_decide(ev) {
        ConsumerAction::Stop => ConsumerStep::Stopped,
        ConsumerAction::Ignore => ConsumerStep::Running,
        ConsumerAction::Forward(c) => {
            match write_to_all(sinks, c.data()) {
                Ok(()) => ConsumerStep::Running,
                Err(e) => ConsumerStep::Failed(e),
            }
        },
    }
}

/// The bytes a sequence of events asks the consumer to forward: the
/// chunks' bytes, concatenated in event order.
pub open spec fn forwarded_bytes(events: Seq<ConsumerEvent>) -> Seq<u8>
    decreases events.len(),
{
    if events.len() == 0 {
        Seq::<u8>::empty()
    } else {
        forwarded_bytes(events.drop_last()) + (match events.last() {
            ConsumerEvent::Data(c) => c.bytes(),
            _ => Seq::<u8>::empty(),
        })
    }
}

/// An event equal in effect to the given one, with a fresh chunk.
fn duplicate_event(ev: &ConsumerEvent) -> (d: ConsumerEvent)
    requires
        event_wf(*ev),
    ensures
        event_wf(d),
        d is Cancelled <==> ev is Cancelled,
        d is Closed <==> ev is Closed,
        *ev matches ConsumerEvent::Data(c) ==> (d matches ConsumerEvent::Data(e) && e.bytes()
            == c.bytes()),
{
    match ev {
        ConsumerEvent::Cancelled => ConsumerEvent::Cancelled,
        ConsumerEvent::Closed => ConsumerEvent::Closed,
        ConsumerEvent::Data(c) => ConsumerEvent::Data(c.duplicate()),
    }
}

/// Early cancellation loses nothing: a consumer fed any run of published
/// chunks and then one terminal event — the cancellation signal, or the
/// loss of the data channel — stops with success, and every chunk
/// published before the signal has been delivered to every healthy input
/// sink exactly once, in publication order, whatever the upstream reader
/// is still doing.
pub fn consume_session(events: &Vec<ConsumerEvent>, sinks: &mut Vec<MemSink>) -> (r: ConsumerStep)
    requires
        all_healthy(old(sinks)@),
        forall|i: int| 0 <= i < events@.len() ==> event_wf(#[trigger] events@[i]),
        events@.len() > 0,
        is_terminal(events@.last()),
        forall|i: int| 0 <= i < events@.len() - 1 ==> !is_terminal(#[trigger] events@[i]),
    ensures
        r is Stopped,
        final(sinks)@.len() == old(sinks)@.len(),
        forall|i: int|
            0 <= i < old(sinks)@.len() ==> final(sinks)@[i].bytes() == old(sinks)@[i].bytes()
                + forwarded_bytes(events@),
{
    let n = events.len();
    let mut j: usize = 0;
    while j < n - 1
        invariant
            j <= n - 1,
            n == events@.len(),
            n > 0,
            forall|i: int| 0 <= i < events@.len() ==> event_wf(#[trigger] events@[i]),
            forall|i: int| 0 <= i < events@.len() - 1 ==> !is_terminal(#[trigger] events@[i]),
            all_healthy(sinks@),
            sinks@.len() == old(sinks)@.len(),
            forall|i: int|
                0 <= i < old(sinks)@.len() ==> sinks@[i].bytes() == old(sinks)@[i].bytes()
                    + forwarded_bytes(events@.take(j as int)),
        decreases n - 1 - j,
    {
        proof {
            assert(events@.take(j + 1).drop_last() =~= events@.take(j as int));
            assert(events@.take(j + 1).last() == events@[j as int]);
        }
        let ev = duplicate_event(&events[j]);
        let step = consumer_step(sinks, ev);
        match step {
            ConsumerStep::Running => {},
            // With healthy sinks and a non-terminal event the step always
            // keeps running; the other outcomes never come up here.
            _ => {
                return step;
            },
        }
        j = j + 1;
    }
    let ev = duplicate_event(&events[n - 1]);
    let step = consumer_step(sinks, ev);
    proof {
        assert(events@.drop_last() =~= events@.take(n - 1));
    }
    step
}

} // verus!
