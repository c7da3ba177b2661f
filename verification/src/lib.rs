//! Supervised child-execution engine for a per-worker judge agent.
//!
//! A trusted host drives the agent over a length-prefixed control stream:
//! it either compiles one untrusted submission, or runs a prepared
//! executable against a sequence of test inputs under time, memory and
//! output-size limits.  This crate holds the verified core: the session
//! state machine, the framing codec, the configuration templating, the
//! outcome classification for compile and test runs, and the parser for
//! the kernel's process-status high-water-mark counter.  Process spawning,
//! pipes, threads and the control-stream I/O live in the surrounding
//! (unverified) binary, which feeds plain values into these functions and
//! carries their decisions out.

pub mod agent;
pub mod codec;
pub mod config;
pub mod models;
pub mod procinfo;
pub mod runner;

pub use agent::Agent;

pub use models::Compilation;
pub use models::CompilationResult;
pub use models::ErrorResult;
pub use models::Preparation;
pub use models::Request;
pub use models::Response;
pub use models::TestRequest;
pub use models::TestResult;
