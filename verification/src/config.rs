//! Immutable tool configuration and its templating.
//!
//! A configuration arrives with possibly-empty `path` and `output` fields
//! and with the sentinels `<path>` and `<output>` inside the command-line
//! template.  Before the first compile or test step runs, the agent
//! materialises it against a freshly generated temp prefix: empty paths
//! become `<prefix><ext>` and `<prefix>`, and every sentinel argument is
//! replaced by the resolved value.

use vstd::prelude::*;
use vstd::pervasive::VecAdditionalExecFns;
use vstd::string::StringExecFns;

verus! {

/// How the compiler is invoked: where the source is written (`path`),
/// where the artifact appears (`output`), and the command line.
#[derive(Debug, Clone)]
pub struct CompilationConfig {
    pub path: String,
    pub ext: String,
    pub output: String,
    pub cmd: String,
    pub args: Vec<String>,
}

/// How a prepared executable is invoked: where it is written (`path`)
/// and the command line.  An empty `cmd` defaults to `path` itself.
#[derive(Debug, Clone)]
pub struct TestConfig {
    pub path: String,
    pub ext: String,
    pub cmd: String,
    pub args: Vec<String>,
}

/// The agent's configuration: at most one compile tool and one test tool.
#[derive(Debug, Clone)]
pub struct Config {
    pub compile: Option<CompilationConfig>,
    pub test: Option<TestConfig>,
}

/// What one template argument resolves to: the sentinel `<path>` becomes
/// the resolved path, `<output>` the resolved output, anything else is
/// kept as it is.
pub open spec fn resolved_arg(a: Seq<char>, path: Seq<char>, out: Seq<char>) -> Seq<char> {
    if a == "<path>"@ {
        path
    } else if a == "<output>"@ {
        out
    } else {
        a
    }
}

/// `post` is `pre` materialised against `prefix` for a compile tool.
pub open spec fn compile_resolved(
    pre: CompilationConfig,
    post: CompilationConfig,
    prefix: Seq<char>,
) -> bool {
    &&& post.ext@ == pre.ext@
    &&& post.cmd@ == pre.cmd@
    &&& post.path@ == if pre.path@.len() == 0 {
        prefix + pre.ext@
    } else {
        pre.path@
    }
    &&& post.output@ == if pre.output@.len() == 0 {
        prefix
    } else {
        pre.output@
    }
    &&& post.args@.len() == pre.args@.len()
    &&& forall|i: int|
        0 <= i < pre.args@.len() ==> post.args@[i]@ == resolved_arg(
            pre.args@[i]@,
            post.path@,
            post.output@,
        )
}

/// `post` is `pre` materialised against `prefix` for a test tool.  A test
/// tool has no output file, so `<output>` resolves to the empty string,
/// and an empty `cmd` defaults to the resolved path.
pub open spec fn test_resolved(pre: TestConfig, post: TestConfig, prefix: Seq<char>) -> bool {
    &&& post.ext@ == pre.ext@
    &&& post.path@ == if pre.path@.len() == 0 {
        prefix + pre.ext@
    } else {
        pre.path@
    }
    &&& post.cmd@ == if pre.cmd@.len() == 0 {
        post.path@
    } else {
        pre.cmd@
    }
    &&& post.args@.len() == pre.args@.len()
    &&& forall|i: int|
        0 <= i < pre.args@.len() ==> post.args@[i]@ == resolved_arg(
            pre.args@[i]@,
            post.path@,
            Seq::<char>::empty(),
        )
}

impl Config {
    /// The configuration invariant that must hold before any compile or
    /// test step runs: every present tool has a non-empty path and
    /// command, and a compile tool a non-empty output path.
    pub open spec fn resolved_invariant(self) -> bool {
        &&& (self.compile matches Some(c) ==> c.path@.len() > 0 && c.output@.len() > 0
            && c.cmd@.len() > 0)
        &&& (self.test matches Some(t) ==> t.path@.len() > 0 && t.cmd@.len() > 0)
    }
}

/// Replaces every sentinel element of `args` as `resolved_arg` says.
fn resolve_args(args: &mut Vec<String>, path: &String, out: &String)
    ensures
        final(args)@.len() == old(args)@.len(),
        forall|i: int|
            0 <= i < old(args)@.len() ==> final(args)@[i]@ == resolved_arg(
                old(args)@[i]@,
                path@,
                out@,
            ),
{
    let kw_path: String = "<path>".to_owned();
    let kw_output: String = "<output>".to_owned();
    let n = args.len();
    let mut i: usize = 0;
    while i < n
        invariant
            i <= n,
            n == args@.len() == old(args)@.len(),
            kw_path@ == "<path>"@,
            kw_output@ == "<output>"@,
            forall|j: int|
                0 <= j < i ==> args@[j]@ == resolved_arg(old(args)@[j]@, path@, out@),
            forall|j: int| i <= j < n ==> args@[j] == old(args)@[j],
        decreases n - i,
    {
        if args[i] == kw_path {
            args.set(i, path.clone());
        } else if args[i] == kw_output {
            args.set(i, out.clone());
        }
        i = i + 1;
    }
}

impl CompilationConfig {
    /// Materialises this compile tool against `prefix`.
    pub fn resolve(&mut self, prefix: &str)
        ensures
            compile_resolved(*old(self), *final(self), prefix@),
    {
        if self.path.as_str().is_empty() {
            let mut p = prefix.to_owned();
            p.append(self.ext.as_str());
            self.path = p;
        }
        if self.output.as_str().is_empty() {
            self.output = prefix.to_owned();
        }
        let path = self.path.clone();
        let out = self.output.clone();
        resolve_args(&mut self.args, &path, &out);
    }
}

impl TestConfig {
    /// Materialises this test tool against `prefix`.
    pub fn resolve(&mut self, prefix: &str)
        ensures
            test_resolved(*old(self), *final(self), prefix@),
    {
        if self.path.as_str().is_empty() {
            let mut p = prefix.to_owned();
            p.append(self.ext.as_str());
            self.path = p;
        }
        let path = self.path.clone();
        let out = String::new();
        resolve_args(&mut self.args, &path, &out);
        if self.cmd.as_str().is_empty() {
            self.cmd = self.path.clone();
        }
    }
}

} // verus!
