//! The request and response messages exchanged with the host.
//!
//! On the wire every message is a tagged MessagePack map inside a
//! length-prefixed frame (see `codec`); the unverified binary translates
//! between those bytes and these plain values.  Times are carried here as
//! whole nanoseconds; the wire format reports them as fractional seconds.

use vstd::prelude::*;

verus! {

/// Host request: compile one submission within `time_limit` seconds.
///
/// `memory_limit` (MiB) is accepted for wire compatibility but not
/// enforced by the agent itself; enforcement is the enclosing sandbox's
/// responsibility.
#[derive(Debug, Clone, PartialEq, Eq)]
pub struct Compilation {
    pub code: Vec<u8>,
    pub time_limit: u32,
    pub memory_limit: u32,
}

/// Host request: store a prepared executable and the limits that every
/// following test run must respect.  `output_limit` is in MiB.
#[derive(Debug, Clone, PartialEq, Eq)]
pub struct Preparation {
    pub code: Vec<u8>,
    pub time_limit: u32,
    pub memory_limit: u32,
    pub output_limit: u32,
}

/// Host request: run the prepared executable once with `input` on its
/// standard input.
#[derive(Debug, Clone, PartialEq, Eq)]
pub struct TestRequest {
    pub input: Vec<u8>,
}

/// One decoded frame from the host.
#[derive(Debug, Clone, PartialEq, Eq)]
pub enum Request {
    Compilation(Compilation),
    Preparation(Preparation),
    Test(TestRequest),
    Fin,
}

/// Successful compile: the produced artifact and the measured wall-clock
/// time.  `memory` is always zero: the compiler is not monitored.
#[derive(Debug, Clone, PartialEq, Eq)]
pub struct CompilationResult {
    pub binary: Vec<u8>,
    pub time_ns: u64,
    pub memory: u64,
}

/// Successful test run: everything the child wrote to its standard
/// output, the measured wall-clock time, and the highest `VmHWM` sample
/// observed over the child's life.
#[derive(Debug, Clone, PartialEq, Eq)]
pub struct TestResult {
    pub output: Vec<u8>,
    pub time_ns: u64,
    pub memory_bytes: u64,
}

/// The classified failure of a compile or test step, reported to the
/// host rather than aborting the session.
#[derive(Debug, Clone, Copy, PartialEq, Eq, Structural)]
pub enum ErrorResult {
    CompilationError,
    RuntimeError,
    MemoryLimitExceeded,
    TimeLimitExceeded,
    OutputLimitExceeded,
    InternalError,
}

/// One frame sent back to the host.
#[derive(Debug, Clone, PartialEq, Eq)]
pub enum Response {
    Compilation(CompilationResult),
    Test(TestResult),
    Error { kind: ErrorResult },
}

impl ErrorResult {
    /// The exact lexical form of the variant name, which is what the
    /// `kind` field of an `Error` response carries on the wire.
    pub open spec fn spec_name(self) -> Seq<char> {
        match self {
            ErrorResult::CompilationError => "CompilationError"@,
            ErrorResult::RuntimeError => "RuntimeError"@,
            ErrorResult::MemoryLimitExceeded => "MemoryLimitExceeded"@,
            ErrorResult::TimeLimitExceeded => "TimeLimitExceeded"@,
            ErrorResult::OutputLimitExceeded => "OutputLimitExceeded"@,
            ErrorResult::InternalError => "InternalError"@,
        }
    }

    /// The wire name of this error kind.
    pub fn name(&self) -> (r: &'static str)
        ensures
            r@ == self.spec_name(),
    {
        match self {
            ErrorResult::CompilationError => "CompilationError",
            ErrorResult::RuntimeError => "RuntimeError",
            ErrorResult::MemoryLimitExceeded => "MemoryLimitExceeded",
            ErrorResult::TimeLimitExceeded => "TimeLimitExceeded",
            ErrorResult::OutputLimitExceeded => "OutputLimitExceeded",
            ErrorResult::InternalError => "InternalError",
        }
    }
}

} // verus!
