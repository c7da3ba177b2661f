//! The session driver: a finite-state machine over the control stream.
//!
//! An agent accepts exactly one of `Compilation` or `Preparation` as its
//! first request.  A compilation makes the agent a one-shot session: one
//! response, then the session is over.  A preparation moves it to the
//! ready state, where any number of `Test` requests are served until
//! `Fin` ends the session cleanly.  Any other request is a fatal
//! protocol error.
//!
//! The surrounding binary owns the control stream and the spawned
//! processes; it decodes each frame into a [`Request`], hands it to
//! [`Agent::start`], and carries out the returned [`Action`].

use vstd::prelude::*;

use crate::config::{compile_resolved, test_resolved, Config};
use crate::models::{Compilation, Request};

verus! {

/// Where the session stands.
#[derive(Debug, Clone, Copy, PartialEq, Eq, Structural)]
pub enum SessionState {
    /// No request has been accepted yet.
    Start,
    /// A preparation was accepted; tests may run.
    Ready,
    /// The session is over: nothing more is accepted and nothing more is
    /// written to the control stream.
    Ended,
}

/// What the surrounding binary must do for an accepted request.
#[derive(Debug, Clone, PartialEq, Eq)]
pub enum Action {
    /// Run the compile step for this request, send its one response, and
    /// stop: a compiling agent is a one-shot session.
    Compile(Compilation),
    /// Write these bytes to the test tool's path with executable
    /// permissions; the limits are already stored on the agent.
    WriteExecutable(Vec<u8>),
    /// Run the prepared executable once with these bytes on its standard
    /// input and send exactly one response.
    RunTest(Vec<u8>),
    /// Clean exit with no response.
    Finish,
}

/// A fatal protocol error: the request is not valid in the current
/// state.  The session dies without a response.
#[derive(Debug, Clone, Copy, PartialEq, Eq, Structural)]
pub enum AgentError {
    /// The first request was neither a compilation nor a preparation.
    InvalidFirstMessage,
    /// A ready session was sent something other than a test or `Fin`.
    TestRequestRequired,
    /// A request arrived after the session was already over.
    SessionEnded,
}

/// The state the session moves to on `req`.
pub open spec fn next_state(state: SessionState, req: Request) -> SessionState {
    match state {
        SessionState::Start => match req {
            Request::Preparation(_) => SessionState::Ready,
            _ => SessionState::Ended,
        },
        SessionState::Ready => match req {
            Request::Test(_) => SessionState::Ready,
            _ => SessionState::Ended,
        },
        SessionState::Ended => SessionState::Ended,
    }
}

/// What the session answers to `req`: the action to carry out, or the
/// fatal protocol error.
pub open spec fn session_decision(state: SessionState, req: Request) -> Result<
    Action,
    AgentError,
> {
    match state {
        SessionState::Start => match req {
            Request::Compilation(c) => Ok(Action::Compile(c)),
            Request::Preparation(p) => Ok(Action::WriteExecutable(p.code)),
            _ => Err(AgentError::InvalidFirstMessage),
        },
        SessionState::Ready => match req {
            Request::Test(t) => Ok(Action::RunTest(t.input)),
            Request::Fin => Ok(Action::Finish),
            _ => Err(AgentError::TestRequestRequired),
        },
        SessionState::Ended => Err(AgentError::SessionEnded),
    }
}

/// The bytes-per-MiB factor for the stored output limit.
pub const MIB: u64 = 0x10_0000;

/// One judge session: the materialised configuration, the limits set by
/// the last preparation, and where the session stands.
pub struct Agent {
    pub config: Config,
    /// Seconds, set by a preparation.
    pub time_limit: u32,
    /// MiB, informational: enforcement is external.
    pub memory_limit: u32,
    /// Bytes: the prepared MiB value times [`MIB`].
    pub output_limit: u64,
    pub state: SessionState,
}

/// `post` is `pre` with both tools materialised against `prefix`.
pub open spec fn config_materialised(pre: Config, post: Config, prefix: Seq<char>) -> bool {
    &&& (post.compile is Some) == (pre.compile is Some)
    &&& (post.test is Some) == (pre.test is Some)
    &&& (pre.compile matches Some(c0) ==> post.compile matches Some(c1) && compile_resolved(
        c0,
        c1,
        prefix,
    ))
    &&& (pre.test matches Some(t0) ==> post.test matches Some(t1) && test_resolved(
        t0,
        t1,
        prefix,
    ))
}

/// The paths whose unlinking the agent owes at teardown: the compile
/// tool's source path (when set) and output path, and the test tool's
/// executable path (when set).
pub open spec fn spec_cleanup_paths(config: Config) -> Seq<Seq<char>> {
    (match config.compile {
        Some(c) => (if c.path@.len() > 0 {
            seq![c.path@]
        } else {
            Seq::<Seq<char>>::empty()
        }) + seq![c.output@],
        None => Seq::<Seq<char>>::empty(),
    }) + (match config.test {
        Some(t) => if t.path@.len() > 0 {
            seq![t.path@]
        } else {
            Seq::<Seq<char>>::empty()
        },
        None => Seq::<Seq<char>>::empty(),
    })
}

impl Agent {
    /// Builds a session around `config`, materialising it against the
    /// generated temp prefix.  The prefix must be non-empty and a present
    /// compile tool must name its compiler, so that the resolved
    /// configuration meets [`Config::resolved_invariant`].
    pub fn new(config: Config, temp_prefix: &str) -> (r: Agent)
        requires
            temp_prefix@.len() > 0,
            config.compile matches Some(c) ==> c.cmd@.len() > 0,
        ensures
            r.state is Start,
            r.time_limit == 0,
            r.memory_limit == 0,
            r.output_limit == 0,
            config_materialised(config, r.config, temp_prefix@),
            r.config.resolved_invariant(),
    {
        let compile = match config.compile {
            Some(mut c) => {
                c.resolve(temp_prefix);
                Some(c)
            },
            None => None,
        };
        let test = match config.test {
            Some(mut t) => {
                t.resolve(temp_prefix);
                Some(t)
            },
            None => None,
        };
        Agent {
            config: Config { compile, test },
            time_limit: 0,
            memory_limit: 0,
            output_limit: 0,
            state: SessionState::Start,
        }
    }

    /// Drives the session one request forward.
    ///
    /// Exactly one action is returned for each accepted request, and a
    /// fatal error for each invalid one; the answer and the state change
    /// are exactly [`session_decision`] and [`next_state`].  Only an
    /// accepted preparation touches the stored limits, and the output
    /// limit is stored in bytes.
    pub fn start(&mut self, req: Request) -> (r: Result<Action, AgentError>)
        ensures
            r == session_decision(old(self).state, req),
            final(self).state == next_state(old(self).state, req),
            final(self).config == old(self).config,
            req matches Request::Preparation(p) ==> old(self).state is Start ==> {
                &&& final(self).time_limit == p.time_limit
                &&& final(self).memory_limit == p.memory_limit
                &&& final(self).output_limit == p.output_limit as u64 * MIB
            },
            !(old(self).state is Start && req is Preparation) ==> {
                &&& final(self).time_limit == old(self).time_limit
                &&& final(self).memory_limit == old(self).memory_limit
                &&& final(self).output_limit == old(self).output_limit
            },
    {
        match self.state {
            SessionState::Start => match req {
                Request::Compilation(c) => {
                    self.state = SessionState::Ended;
                    Ok(Action::Compile(c))
                },
                Request::Preparation(p) => {
                    self.time_limit = p.time_limit;
                    self.memory_limit = p.memory_limit;
                    self.output_limit = (p.output_limit as u64) * MIB;
                    self.state = SessionState::Ready;
                    Ok(Action::WriteExecutable(p.code))
                },
                _ => {
                    self.state = SessionState::Ended;
                    Err(AgentError::InvalidFirstMessage)
                },
            },
            SessionState::Ready => match req {
                Request::Test(t) => Ok(Action::RunTest(t.input)),
                Request::Fin => {
                    self.state = SessionState::Ended;
                    Ok(Action::Finish)
                },
                _ => {
                    self.state = SessionState::Ended;
                    Err(AgentError::TestRequestRequired)
                },
            },
            SessionState::Ended => Err(AgentError::SessionEnded),
        }
    }

    /// The paths to unlink at teardown, in order: exactly
    /// [`spec_cleanup_paths`] of the configuration.  The surrounding
    /// binary attempts an unlink of each on every exit path, ignoring
    /// failures.
    pub fn cleanup_paths(&self) -> (r: Vec<String>)
        ensures
            r@.map_values(|s: String| s@) == spec_cleanup_paths(self.config),
    {
        let mut r: Vec<String> = Vec::new();
        if let Some(c) = &self.config.compile {
            if !c.path.as_str().is_empty() {
                r.push(c.path.clone());
            }
            r.push(c.output.clone());
        }
        if let Some(t) = &self.config.test {
            if !t.path.as_str().is_empty() {
                r.push(t.path.clone());
            }
        }
        proof {
            assert(r@.map_values(|s: String| s@) =~= spec_cleanup_paths(self.config));
        }
        r
    }
}

/// Every request accepted in the ready state with a test payload — and
/// only such a request — makes the session run a test, for which exactly
/// one response is then sent.
pub proof fn lemma_one_action_per_test(state: SessionState, req: Request)
    ensures
        (session_decision(state, req) matches Ok(a) && a is RunTest) <==> (state is Ready
            && req is Test),
{
}

/// After `Fin` — and after any other request that ends the session — the
/// session accepts nothing and answers nothing, so no further bytes are
/// written to the control stream.
pub proof fn lemma_nothing_after_end(later: Request)
    ensures
        next_state(SessionState::Ready, Request::Fin) is Ended,
        session_decision(SessionState::Ended, later) is Err,
        next_state(SessionState::Ended, later) is Ended,
{
}

/// The state after driving the session from `s0` through `reqs` in
/// order.
pub open spec fn run_states(s0: SessionState, reqs: Seq<Request>) -> SessionState
    decreases reqs.len(),
{
    if reqs.len() == 0 {
        s0
    } else {
        run_states(next_state(s0, reqs[0]), reqs.drop_first())
    }
}

/// Once over, always over: from the ended state — in particular right
/// after an accepted `Fin` — every run of further requests leaves the
/// session ended, and each of them is refused without a response.
pub proof fn lemma_ended_is_absorbing(reqs: Seq<Request>)
    ensures
        run_states(SessionState::Ended, reqs) is Ended,
    decreases reqs.len(),
{
    if reqs.len() > 0 {
        lemma_ended_is_absorbing(reqs.drop_first());
    }
}

/// A teardown attempts an unlink of every temp path the configuration
/// holds: the compile tool's source and output paths and the test tool's
/// executable path.
pub proof fn lemma_cleanup_covers_temp_files(config: Config)
    ensures
        config.compile matches Some(c) ==> (c.path@.len() > 0 ==> spec_cleanup_paths(
            config,
        ).contains(c.path@)) && spec_cleanup_paths(config).contains(c.output@),
        config.test matches Some(t) ==> (t.path@.len() > 0 ==> spec_cleanup_paths(
            config,
        ).contains(t.path@)),
{
    let paths = spec_cleanup_paths(config);
    if let Some(c) = config.compile {
        if c.path@.len() > 0 {
            assert(paths[0] == c.path@);
            assert(paths[1] == c.output@);
        } else {
            assert(paths[0] == c.output@);
        }
    }
    if let Some(t) = config.test {
        if t.path@.len() > 0 {
            let base = match config.compile {
                Some(c) => if c.path@.len() > 0 {
                    2int
                } else {
                    1int
                },
                None => 0int,
            };
            assert(paths[base] == t.path@);
        }
    }
}

} // verus!
