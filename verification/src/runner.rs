//! Decisions of the supervised child-execution engine.
//!
//! A test run spawns the child, plus one worker that owns the child's
//! standard input and output.  The worker feeds the input, then reads
//! chunk by chunk, sampling the `VmHWM` counter around every blocking
//! read, and publishes messages to the driver: any number of `Data`
//! chunks followed by exactly one terminal message.  The driver
//! accumulates the output under a wall-clock deadline and picks a
//! tentative response; after reaping the child, the exit status is
//! adjudicated against that response.
//!
//! Everything here is a pure decision over plain values.  The blocking
//! reads, the channel, the clock and the kill live in the surrounding
//! binary, which calls these functions at each step.

use vstd::prelude::*;

use crate::models::{CompilationResult, ErrorResult, Response, TestResult};
use crate::procinfo::{is_oom, spec_is_oom, ExitStatus};

verus! {

/// One message from the worker to the driver.  Within a test, messages
/// arrive in the order `Data* (Fin | ReadErr)`.
#[derive(Debug, Clone, PartialEq, Eq)]
pub enum WorkerMsg {
    /// A chunk freshly read from the child's standard output.
    Data(Vec<u8>),
    /// EOF on stdout: the highest `VmHWM` sample seen over the child's
    /// life, and whether reading ran into the output limit.
    Fin { hwm: u64, overflow: bool },
    /// A read error on the child's stdout pipe: the child crashed while
    /// producing output.
    ReadErr,
}

/// What one blocking read of the child's standard output came back with.
#[derive(Debug, Clone, PartialEq, Eq)]
pub enum ReadOutcome {
    /// Bytes were read.
    Chunk(Vec<u8>),
    /// The pipe is exhausted: the child closed its standard output.
    Eof,
    /// The read itself failed.
    ReadFailed,
}

/// What the worker does after one read.
#[derive(Debug, Clone, PartialEq, Eq)]
pub enum WorkerStep {
    /// Send `Data(chunk)` to the driver and keep reading, with the byte
    /// total advanced to `total`.
    Forward { chunk: Vec<u8>, total: u64 },
    /// Send this terminal message and stop.
    Stop(WorkerMsg),
}

/// `a + b` clamped to `u64::MAX`.
pub open spec fn sat_add(a: u64, b: nat) -> u64 {
    if a + b > u64::MAX {
        u64::MAX
    } else {
        (a + b) as u64
    }
}

/// The worker's decision after one read: a failed read reports a runtime
/// error, EOF finishes cleanly, and a chunk either overflows the output
/// limit — counting every byte read so far — or is forwarded to the
/// driver.
pub open spec fn spec_worker_step(
    total: u64,
    hwm: u64,
    outcome: ReadOutcome,
    output_limit: u64,
) -> WorkerStep {
    match outcome {
        ReadOutcome::ReadFailed => WorkerStep::Stop(WorkerMsg::ReadErr),
        ReadOutcome::Eof => WorkerStep::Stop(WorkerMsg::Fin { hwm, overflow: false }),
        ReadOutcome::Chunk(chunk) => {
            let new_total = sat_add(total, chunk@.len());
            if new_total >= output_limit {
                WorkerStep::Stop(WorkerMsg::Fin { hwm, overflow: true })
            } else {
                WorkerStep::Forward { chunk, total: new_total }
            }
        },
    }
}

/// Decides the worker's next move after one read of the child's
/// standard output.  `total` is the byte count read before this outcome,
/// `hwm` the highest `VmHWM` sample observed so far.
pub fn worker_step(total: u64, hwm: u64, outcome: ReadOutcome, output_limit: u64) -> (r:
    WorkerStep)
    ensures
        r == spec_worker_step(total, hwm, outcome, output_limit),
{
    match outcome {
        ReadOutcome::ReadFailed => WorkerStep::Stop(WorkerMsg::ReadErr),
        ReadOutcome::Eof => WorkerStep::Stop(WorkerMsg::Fin { hwm, overflow: false }),
        ReadOutcome::Chunk(chunk) => {
            let len = chunk.len() as u64;
            let new_total = total.saturating_add(len);
            if new_total >= output_limit {
                WorkerStep::Stop(WorkerMsg::Fin { hwm, overflow: true })
            } else {
                WorkerStep::Forward { chunk, total: new_total }
            }
        },
    }
}

/// One event the driver loop reacts to.
#[derive(Debug, Clone, PartialEq, Eq)]
pub enum DriverEvent {
    /// A message arrived on the worker channel before the deadline.
    Msg(WorkerMsg),
    /// The deadline passed before any further message.
    DeadlinePassed,
    /// The worker went away without a terminal message: it could not
    /// feed the child its input, because the child was already gone.
    /// The reaped exit status alone classifies such a run.
    Disconnected,
}

/// Whether the driver loop stops at this event.  Only a `Data` chunk
/// keeps the loop running.
pub open spec fn is_terminal(e: DriverEvent) -> bool {
    !(e matches DriverEvent::Msg(WorkerMsg::Data(_)))
}

/// The output accumulator of one test run's driver loop.
pub struct TestDriver {
    pub output: Vec<u8>,
}

impl TestDriver {
    /// A fresh driver with nothing accumulated.
    pub fn new() -> (r: TestDriver)
        ensures
            r.output@ == Seq::<u8>::empty(),
    {
        TestDriver { output: Vec::new() }
    }

    /// Reacts to one event, with `elapsed_ns` the wall-clock time spent
    /// on the test so far.  Data is accumulated; every terminal event —
    /// and only a terminal event — yields the tentative response:
    /// a clean EOF yields the accumulated output with the reported
    /// high-water mark, an overflow yields `OutputLimitExceeded`, a read
    /// error `RuntimeError`, a missed deadline `TimeLimitExceeded`, and
    /// a vanished worker the accumulated output, leaving the
    /// classification to the exit status (see [`adjudicate`]).
    pub fn step(&mut self, event: DriverEvent, elapsed_ns: u64) -> (r: Option<Response>)
        ensures
            r is Some <==> is_terminal(event),
            event matches DriverEvent::Msg(WorkerMsg::Data(d)) ==> final(self).output@ == old(
                self,
            ).output@ + d@,
            event matches DriverEvent::Msg(WorkerMsg::Fin { hwm, overflow }) ==> if overflow {
                r == Some(Response::Error { kind: ErrorResult::OutputLimitExceeded })
                    && final(self).output == old(self).output
            } else {
                {
                    &&& r matches Some(Response::Test(t))
                    &&& t.output@ == old(self).output@
                    &&& t.time_ns == elapsed_ns
                    &&& t.memory_bytes == hwm
                    &&& final(self).output@.len() == 0
                }
            },
            event matches DriverEvent::Msg(WorkerMsg::ReadErr) ==> r == Some(
                Response::Error { kind: ErrorResult::RuntimeError },
            ) && final(self).output == old(self).output,
            event is DeadlinePassed ==> r == Some(
                Response::Error { kind: ErrorResult::TimeLimitExceeded },
            ) && final(self).output == old(self).output,
            event is Disconnected ==> {
                &&& r matches Some(Response::Test(t))
                &&& t.output@ == old(self).output@
                &&& t.time_ns == elapsed_ns
                &&& t.memory_bytes == 0
                &&& final(self).output@.len() == 0
            },
    {
        match event {
            DriverEvent::Msg(WorkerMsg::Data(d)) => {
                self.output.extend_from_slice(d.as_slice());
                proof {
                    assert(self.output@ =~= old(self).output@ + d@);
                }
                None
            },
            DriverEvent::Msg(WorkerMsg::Fin { hwm, overflow }) => {
                if overflow {
                    Some(Response::Error { kind: ErrorResult::OutputLimitExceeded })
                } else {
                    let mut taken: Vec<u8> = Vec::new();
                    core::mem::swap(&mut taken, &mut self.output);
                    Some(
                        Response::Test(
                            TestResult { output: taken, time_ns: elapsed_ns, memory_bytes: hwm },
                        ),
                    )
                }
            },
            DriverEvent::Msg(WorkerMsg::ReadErr) => Some(
                Response::Error { kind: ErrorResult::RuntimeError },
            ),
            DriverEvent::DeadlinePassed => Some(
                Response::Error { kind: ErrorResult::TimeLimitExceeded },
            ),
            DriverEvent::Disconnected => {
                let mut taken: Vec<u8> = Vec::new();
                core::mem::swap(&mut taken, &mut self.output);
                Some(
                    Response::Test(
                        TestResult { output: taken, time_ns: elapsed_ns, memory_bytes: 0 },
                    ),
                )
            },
        }
    }
}

/// The tentative responses whose exit status is not informative: for
/// both, the driver itself killed the child.
pub open spec fn ignores_exit_status(r: Response) -> bool {
    ||| r == Response::Error { kind: ErrorResult::OutputLimitExceeded }
    ||| r == Response::Error { kind: ErrorResult::TimeLimitExceeded }
}

/// The final response after reaping the child: a failing exit status
/// trumps a tentative response only when the driver did not itself cause
/// the kill, and then an OOM kill reports the memory limit, any other
/// failure a runtime error.
pub open spec fn spec_adjudicate(tentative: Response, status: ExitStatus) -> Response {
    if !status.spec_success() && !ignores_exit_status(tentative) {
        if spec_is_oom(status) {
            Response::Error { kind: ErrorResult::MemoryLimitExceeded }
        } else {
            Response::Error { kind: ErrorResult::RuntimeError }
        }
    } else {
        tentative
    }
}

/// Adjudicates the driver's tentative response against the reaped exit
/// status.
pub fn adjudicate(tentative: Response, status: &ExitStatus) -> (r: Response)
    ensures
        r == spec_adjudicate(tentative, *status),
{
    let ignore = match &tentative {
        Response::Error { kind } => *kind == ErrorResult::OutputLimitExceeded || *kind
            == ErrorResult::TimeLimitExceeded,
        _ => false,
    };
    if !status.success() && !ignore {
        if is_oom(status) {
            Response::Error { kind: ErrorResult::MemoryLimitExceeded }
        } else {
            Response::Error { kind: ErrorResult::RuntimeError }
        }
    } else {
        tentative
    }
}

/// What the compile step observed.
#[derive(Debug, Clone, PartialEq, Eq)]
pub enum CompileOutcome {
    /// The wall-clock deadline passed; the compiler was killed and
    /// reaped.
    TimedOut,
    /// The compiler exited with `status`.  On a successful status the
    /// artifact was read back; `None` when it was missing or unreadable.
    Exited { status: ExitStatus, artifact: Option<Vec<u8>> },
}

/// Classifies the outcome of the compile step.  A timeout reports the
/// time limit; a successful exit with a readable artifact reports the
/// artifact and the measured time (the compiler is not monitored, so
/// its memory is reported as zero); everything else is an OOM kill or a
/// compilation error.
pub fn classify_compile(outcome: CompileOutcome, elapsed_ns: u64) -> (r: Response)
    ensures
        outcome is TimedOut ==> r == (Response::Error { kind: ErrorResult::TimeLimitExceeded }),
        outcome matches CompileOutcome::Exited { status, artifact } ==> {
            &&& status.spec_success() && artifact is Some ==> {
                &&& r matches Response::Compilation(c)
                &&& artifact matches Some(bin)
                &&& c.binary@ == bin@
                &&& c.time_ns == elapsed_ns
                &&& c.memory == 0
            }
            &&& !(status.spec_success() && artifact is Some) ==> r == (Response::Error {
                kind: if spec_is_oom(status) {
                    ErrorResult::MemoryLimitExceeded
                } else {
                    ErrorResult::CompilationError
                },
            })
        },
{
    match outcome {
        CompileOutcome::TimedOut => Response::Error { kind: ErrorResult::TimeLimitExceeded },
        CompileOutcome::Exited { status, artifact } => {
            if status.success() {
                match artifact {
                    Some(bin) => Response::Compilation(
                        CompilationResult { binary: bin, time_ns: elapsed_ns, memory: 0 },
                    ),
                    None => Response::Error { kind: ErrorResult::CompilationError },
                }
            } else {
                if is_oom(&status) {
                    Response::Error { kind: ErrorResult::MemoryLimitExceeded }
                } else {
                    Response::Error { kind: ErrorResult::CompilationError }
                }
            }
        },
    }
}

/// How many responses the driver loop emits on a run of events: it
/// forwards past every `Data` chunk and answers exactly once at the
/// first terminal event.
pub open spec fn spec_responses_emitted(events: Seq<DriverEvent>) -> nat
    decreases events.len(),
{
    if events.len() == 0 {
        0nat
    } else if is_terminal(events[0]) {
        1nat
    } else {
        spec_responses_emitted(events.drop_first())
    }
}

/// For every accepted test, exactly one response is emitted before the
/// next request is read: as soon as the run of events holds a terminal
/// one — the worker's single terminal message, a missed deadline, or
/// the worker vanishing — the driver answers exactly once.
pub proof fn lemma_exactly_one_response(events: Seq<DriverEvent>)
    requires
        exists|i: int| 0 <= i < events.len() && is_terminal(events[i]),
    ensures
        spec_responses_emitted(events) == 1,
    decreases events.len(),
{
    let i = choose|i: int| 0 <= i < events.len() && is_terminal(events[i]);
    if !is_terminal(events[0]) {
        assert(is_terminal(events.drop_first()[i - 1]));
        lemma_exactly_one_response(events.drop_first());
    }
}

/// A missed deadline yields `TimeLimitExceeded` regardless of the
/// child's state: no exit status overrides it.
pub proof fn lemma_deadline_overrides_status(status: ExitStatus)
    ensures
        spec_adjudicate(Response::Error { kind: ErrorResult::TimeLimitExceeded }, status) == (
        Response::Error { kind: ErrorResult::TimeLimitExceeded }),
{
}

/// An output overflow observed before the deadline yields
/// `OutputLimitExceeded` even if the child subsequently exits non-zero
/// or is killed.
pub proof fn lemma_overflow_overrides_status(status: ExitStatus)
    ensures
        spec_adjudicate(Response::Error { kind: ErrorResult::OutputLimitExceeded }, status) == (
        Response::Error { kind: ErrorResult::OutputLimitExceeded }),
{
}

/// An OOM-kill status on anything but an output or time limit yields
/// `MemoryLimitExceeded`.
pub proof fn lemma_oom_yields_memory_limit(tentative: Response, status: ExitStatus)
    requires
        spec_is_oom(status),
        !ignores_exit_status(tentative),
    ensures
        spec_adjudicate(tentative, status) == (Response::Error {
            kind: ErrorResult::MemoryLimitExceeded,
        }),
{
}

/// A non-zero exit that is neither an OOM kill nor an output or time
/// limit yields `RuntimeError`.
pub proof fn lemma_failure_yields_runtime_error(tentative: Response, status: ExitStatus)
    requires
        !status.spec_success(),
        !spec_is_oom(status),
        !ignores_exit_status(tentative),
    ensures
        spec_adjudicate(tentative, status) == (Response::Error { kind: ErrorResult::RuntimeError }),
{
}

} // verus!
