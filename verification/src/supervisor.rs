//! The supervisor's decisions: sink resolution, exit interpretation,
//! best-effort cancellation, and the run's overall outcome.

use vstd::prelude::*;
use crate::flat_map_err::FlatMapErr;
use crate::sink::IoError;

verus! {

/// Why a run failed, or how the child ended other than with an exit code.
#[derive(Clone, Copy, Debug, PartialEq, Eq, Structural)]
pub enum RunError {
    /// The child could not be started.
    Spawn,
    /// A log file could not be opened; fatal before the child is spawned.
    SinkResolution,
    /// A read or write on a stream failed during the run.
    StreamIo,
    /// The cancellation signal could not be handed over: its channel was
    /// still full.
    CancelLost,
    /// The child was terminated by a signal; a valid terminal state,
    /// distinct from every numeric exit code.
    TerminatedBySignal,
}

/// How the child's corresponding stream endpoint is set up.
#[derive(Clone, Copy, Debug, PartialEq, Eq, Structural)]
pub enum StdioMode {
    /// The child shares the parent's own stream; nothing to tee.
    Inherit,
    /// The child gets a pipe owned by this run, so its bytes can be teed.
    Piped,
}

/// What sending the one-shot cancellation signal came to.
#[derive(Clone, Copy, Debug, PartialEq, Eq, Structural)]
pub enum CancelSignalOutcome {
    /// The consumer will receive it.
    Delivered,
    /// A signal already sits unconsumed in the channel.
    Full,
    /// The consumer is gone; it already stopped on its own.
    Disconnected,
}

/// The resolved result of one run: the child's exit code or the error that
/// stands in its place, beside whether any stream worker failed. A stream
/// failure is surfaced here rather than swallowed, but the exit condition
/// takes precedence for the reported outcome.
#[derive(Debug, PartialEq, Eq)]
pub struct RunReport {
    pub outcome: Result<i32, RunError>,
    pub stream_failure: bool,
}

/// Resolves one stream's ordered sink list: the inherited destination
/// alone when no log destination is given, else the inherited destination
/// first and the log destination second, with the child's endpoint piped
/// so the bytes can be teed.
pub fn resolve_stream<S>(inherited: S, log: Option<S>) -> (r: (StdioMode, Vec<S>))
    ensures
        r.0 is Piped <==> log is Some,
        log matches Some(file) ==> r.1@.len() == 2 && r.1@[0] == inherited && r.1@[1] == file,
        log is None ==> r.1@.len() == 1 && r.1@[0] == inherited,
{
    match log {
        Some(file) => {
            let mut sinks: Vec<S> = Vec::new();
            sinks.push(inherited);
            sinks.push(file);
            (StdioMode::Piped, sinks)
        },
        None => {
            let mut sinks: Vec<S> = Vec::new();
            sinks.push(inherited);
            (StdioMode::Inherit, sinks)
        },
    }
}

/// Interprets what waiting on the child returned: its numeric exit code,
/// or, where a signal terminated it and no code exists, the distinct
/// signal-termination condition.
pub fn exit_outcome(code: Option<i32>) -> (r: Result<i32, RunError>)
    ensures
        code matches Some(c) ==> r == Result::<i32, RunError>::Ok(c),
        code is None ==> r == Result::<i32, RunError>::Err(RunError::TerminatedBySignal),
{
    match code {
        Some(c) => Ok(c),
        None => Err(RunError::TerminatedBySignal),
    }
}

/// Interprets the best-effort send of the cancellation signal. A consumer
/// that already stopped on its own leaves no receiver, which is an
/// expected terminal state and no error; only a signal still sitting
/// unconsumed in the channel is a failure.
pub fn cancel_send_result(sent: CancelSignalOutcome) -> (r: Result<(), RunError>)
    ensures
        r is Err <==> sent is Full,
        r matches Err(e) ==> e == RunError::CancelLost,
{
    let attempt: Result<(), CancelSignalOutcome> = match sent {
        CancelSignalOutcome::Delivered => Ok(()),
        outcome => Err(outcome),
    };
    attempt.flat_map_err(ignore_missing_receiver)
}

/// Recovery for the cancellation send: a missing receiver is expected and
/// ignorable, a still-full channel stays a failure.
fn ignore_missing_receiver(outcome: CancelSignalOutcome) -> (recovered: Result<(), RunError>)
    ensures
        recovered is Err <==> outcome is Full,
        recovered matches Err(e) ==> e == RunError::CancelLost,
{
    match outcome {
        CancelSignalOutcome::Full => Err(RunError::CancelLost),
        _ => Ok(()),
    }
}

/// Derives the run's overall result once the child has been waited on, the
/// cancellation signal sent and the stream workers resolved. Signal
/// termination takes precedence, then a lost cancellation signal, else the
/// child's exit code stands; a worker failure never displaces the exit
/// condition but is reported beside it.
pub fn run_outcome(
    wait_code: Option<i32>,
    cancel: CancelSignalOutcome,
    out_worker: Result<(), IoError>,
    err_worker: Result<(), IoError>,
    in_worker: Result<(), IoError>,
) -> (r: RunReport)
    ensures
        wait_code is None ==> r.outcome == Result::<i32, RunError>::Err(
            RunError::TerminatedBySignal,
        ),
        wait_code matches Some(c) ==> r.outcome == (if cancel is Full {
            Result::<i32, RunError>::Err(RunError::CancelLost)
        } else {
            Result::<i32, RunError>::Ok(c)
        }),
        r.stream_failure <==> (out_worker is Err || err_worker is Err || in_worker is Err),
{
    let outcome: Result<i32, RunError> = match exit_outcome(wait_code) {
        Ok(code) => {
            match cancel_send_result(cancel) {
                Ok(()) => Ok(code),
                Err(e) => Err(e),
            }
        },
        Err(e) => Err(e),
    };
    let stream_failure = out_worker.is_err() || err_worker.is_err() || in_worker.is_err();
    RunReport { outcome, stream_failure }
}

/// Where the supervisor stands between spawning the child and reporting.
#[derive(Clone, Copy, Debug, PartialEq, Eq, Structural)]
pub enum SupervisorPhase {
    /// The child runs and its workers are started; block on child exit.
    AwaitingExit,
    /// The child has terminated; the cancellation signal is owed next.
    AwaitingCancel,
    /// Cancellation was attempted; the output and error workers and the
    /// input consumer are owed their join.
    AwaitingWorkers,
}

/// The supervisor's shutdown protocol, one step at a time.
///
/// Once the child is running the supervisor always waits for its exit,
/// always attempts cancellation, and always joins the workers, in that
/// order — even if a worker has already failed — so no blocked worker or
/// pipe handle is leaked. Each step's precondition admits it only in its
/// place in that order, and the final report is derived only once all
/// three steps are recorded.
pub struct Supervision {
    phase: SupervisorPhase,
    wait_code: Option<i32>,
    cancel: CancelSignalOutcome,
}

impl Supervision {
    /// The protocol's position.
    pub closed spec fn phase(&self) -> SupervisorPhase {
        self.phase
    }

    /// What waiting on the child returned, once recorded.
    pub closed spec fn waited_code(&self) -> Option<i32> {
        self.wait_code
    }

    /// What sending the cancellation signal came to, once recorded.
    pub closed spec fn cancel_outcome(&self) -> CancelSignalOutcome {
        self.cancel
    }

    /// The child is spawned and its stream workers started.
    pub fn begin() -> (s: Supervision)
        ensures
            s.phase() is AwaitingExit,
    {
        Supervision {
            phase: SupervisorPhase::AwaitingExit,
            wait_code: None,
            cancel: CancelSignalOutcome::Disconnected,
        }
    }

    /// The child reported termination, with its exit code where one
    /// exists and none where a signal terminated it.
    pub fn child_waited(&mut self, code: Option<i32>)
        requires
            old(self).phase() is AwaitingExit,
        ensures
            final(self).phase() is AwaitingCancel,
            final(self).waited_code() == code,
    {
        self.wait_code = code;
        self.phase = SupervisorPhase::AwaitingCancel;
    }

    /// The cancellation signal was sent to the input consumer,
    /// best-effort, after — never before — the child's exit.
    pub fn cancel_sent(&mut self, outcome: CancelSignalOutcome)
        requires
            old(self).phase() is AwaitingCancel,
        ensures
            final(self).phase() is AwaitingWorkers,
            final(self).waited_code() == old(self).waited_code(),
            final(self).cancel_outcome() == outcome,
    {
        self.cancel = outcome;
        self.phase = SupervisorPhase::AwaitingWorkers;
    }

    /// The output and error workers and the input consumer are joined;
    /// the run resolves. Only now, with all three stream workers
    /// accounted for, is the exit code reported.
    pub fn workers_joined(
        self,
        out_worker: Result<(), IoError>,
        err_worker: Result<(), IoError>,
        in_worker: Result<(), IoError>,
    ) -> (r: RunReport)
        requires
            self.phase() is AwaitingWorkers,
        ensures
            self.waited_code() is None ==> r.outcome == Result::<i32, RunError>::Err(
                RunError::TerminatedBySignal,
            ),
            self.waited_code() matches Some(c) ==> r.outcome == (if self.cancel_outcome()
                is Full {
                Result::<i32, RunError>::Err(RunError::CancelLost)
            } else {
                Result::<i32, RunError>::Ok(c)
            }),
            r.stream_failure <==> (out_worker is Err || err_worker is Err || in_worker is Err),
    {
        run_outcome(self.wait_code, self.cancel, out_worker, err_worker, in_worker)
    }
}

} // verus!
