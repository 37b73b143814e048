//! A verified core for a stream-teeing process runner.
//!
//! The library models the engine that duplicates a child process's three
//! standard streams to an ordered set of sinks: the chunked byte transfer,
//! the fan-out with its partial-write policy, the cancellable input
//! consumer, and the supervisor's outcome rules. Live I/O, threads and
//! channels stay outside; they drive the loops through the decision
//! functions exported here.

pub mod chunk;
pub mod flat_map_err;
pub mod forwarder;
pub mod interleave;
pub mod sink;
pub mod supervisor;
pub mod tee;
