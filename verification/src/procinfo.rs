//! What the agent reads from the operating system about a child process:
//! its exit status, and the `VmHWM` peak-memory counter from the
//! process-status pseudo-file.

use vstd::prelude::*;
use vstd::slice::{slice_index_get, slice_subrange};

verus! {

/// How a reaped child ended, as the operating system reports it: the
/// exit code when it exited, or the terminating signal when it was
/// killed.
#[derive(Debug, Clone, Copy, PartialEq, Eq)]
pub struct ExitStatus {
    pub code: Option<i32>,
    pub signal: Option<i32>,
}

impl ExitStatus {
    /// A successful exit: code zero.
    pub open spec fn spec_success(self) -> bool {
        self.code == Some(0i32)
    }

    /// Whether the child exited successfully.
    pub fn success(&self) -> (r: bool)
        ensures
            r == self.spec_success(),
    {
        match self.code {
            Some(c) => c == 0,
            None => false,
        }
    }
}

/// The OOM predicate: the child was killed by signal 9 (SIGKILL) and has
/// no exit code.  This is how the enclosing cgroup's out-of-memory
/// killer surfaces to the agent.
pub open spec fn spec_is_oom(s: ExitStatus) -> bool {
    &&& s.code is None
    &&& s.signal == Some(9i32)
}

/// Whether `s` looks like an out-of-memory kill.
pub fn is_oom(s: &ExitStatus) -> (r: bool)
    ensures
        r == spec_is_oom(*s),
{
    match (s.code, s.signal) {
        (None, Some(sig)) => sig == 9,
        _ => false,
    }
}

/// The high-water mark after folding one more `VmHWM` sample into
/// `prev`: a failed read (`None`) leaves the mark unchanged, a sample
/// raises it to at least itself.
pub open spec fn spec_observe_hwm(prev: u64, sample: Option<u64>) -> u64 {
    match sample {
        Some(v) => if v > prev {
            v
        } else {
            prev
        },
        None => prev,
    }
}

/// Folds one `VmHWM` sample into the running high-water mark.  The mark
/// never decreases.
pub fn observe_hwm(prev: u64, sample: Option<u64>) -> (r: u64)
    ensures
        r == spec_observe_hwm(prev, sample),
        r >= prev,
{
    match sample {
        Some(v) => if v > prev {
            v
        } else {
            prev
        },
        None => prev,
    }
}

/// The byte values of the line prefix `VmHWM:` that the process-status
/// parser scans for.
pub open spec fn hwm_prefix() -> Seq<u8> {
    seq![86u8, 109u8, 72u8, 87u8, 77u8, 58u8]
}

/// Space or horizontal tab: what separates the `VmHWM:` label from the
/// kilobyte count in the status file.
pub open spec fn is_space(b: u8) -> bool {
    b == 32 || b == 9
}

/// An ASCII decimal digit.
pub open spec fn is_digit(b: u8) -> bool {
    48 <= b <= 57
}

/// The index of the first occurrence of `b` in `s`, or `s.len()` when
/// there is none.
pub open spec fn find_byte(s: Seq<u8>, b: u8) -> int
    decreases s.len(),
{
    if s.len() == 0 {
        0
    } else if s[0] == b {
        0
    } else {
        1 + find_byte(s.drop_first(), b)
    }
}

/// `find_byte` lands in bounds, sees no `b` before its answer, and
/// points at a `b` unless there is none.
pub proof fn lemma_find_byte_bounds(s: Seq<u8>, b: u8)
    ensures
        0 <= find_byte(s, b) <= s.len(),
        forall|k: int| 0 <= k < find_byte(s, b) ==> s[k] != b,
        find_byte(s, b) < s.len() ==> s[find_byte(s, b)] == b,
    decreases s.len(),
{
    if s.len() > 0 && s[0] != b {
        lemma_find_byte_bounds(s.drop_first(), b);
        assert forall|k: int| 0 <= k < find_byte(s, b) implies s[k] != b by {
            if k > 0 {
                assert(s.drop_first()[k - 1] == s[k]);
            }
        }
    }
}

/// A position that sees no `b` before it and a `b` (or the end) at it is
/// exactly what `find_byte` answers.
pub proof fn lemma_find_byte_at(s: Seq<u8>, b: u8, e: int)
    requires
        0 <= e <= s.len(),
        forall|k: int| 0 <= k < e ==> s[k] != b,
        e < s.len() ==> s[e] == b,
    ensures
        find_byte(s, b) == e,
    decreases s.len(),
{
    if e > 0 {
        assert(s[0] != b);
        assert(forall|k: int| 0 <= k < e - 1 ==> s.drop_first()[k] == s[k + 1] && s[k + 1] != b);
        lemma_find_byte_at(s.drop_first(), b, e - 1);
    }
}

/// The number of leading spaces and tabs of `s`.
pub open spec fn skip_spaces(s: Seq<u8>) -> int
    decreases s.len(),
{
    if s.len() == 0 {
        0
    } else if !is_space(s[0]) {
        0
    } else {
        1 + skip_spaces(s.drop_first())
    }
}

/// `skip_spaces` lands in bounds, skips only spaces, and stops at the
/// first non-space unless all of `s` is spaces.
pub proof fn lemma_skip_spaces_bounds(s: Seq<u8>)
    ensures
        0 <= skip_spaces(s) <= s.len(),
        forall|k: int| 0 <= k < skip_spaces(s) ==> is_space(s[k]),
        skip_spaces(s) < s.len() ==> !is_space(s[skip_spaces(s)]),
    decreases s.len(),
{
    if s.len() > 0 && is_space(s[0]) {
        lemma_skip_spaces_bounds(s.drop_first());
        assert forall|k: int| 0 <= k < skip_spaces(s) implies is_space(s[k]) by {
            if k > 0 {
                assert(s.drop_first()[k - 1] == s[k]);
            }
        }
    }
}

/// A position with only spaces before it and a non-space (or the end) at
/// it is exactly what `skip_spaces` answers.
pub proof fn lemma_skip_spaces_at(s: Seq<u8>, e: int)
    requires
        0 <= e <= s.len(),
        forall|k: int| 0 <= k < e ==> is_space(s[k]),
        e < s.len() ==> !is_space(s[e]),
    ensures
        skip_spaces(s) == e,
    decreases s.len(),
{
    if e > 0 {
        assert(is_space(s[0]));
        assert(forall|k: int|
            0 <= k < e - 1 ==> s.drop_first()[k] == s[k + 1] && is_space(s[k + 1]));
        lemma_skip_spaces_at(s.drop_first(), e - 1);
    }
}

/// The value of the decimal digit run `s`: `None` when `s` is empty,
/// holds a non-digit, or does not fit 64 bits.
pub open spec fn spec_parse_u64(s: Seq<u8>) -> Option<u64>
    decreases s.len(),
{
    if s.len() == 0 {
        None
    } else if s.len() == 1 {
        if is_digit(s[0]) {
            Some((s[0] - 48) as u64)
        } else {
            None
        }
    } else if !is_digit(s.last()) {
        None
    } else {
        match spec_parse_u64(s.drop_last()) {
            None => None,
            Some(v) => if v * 10 + (s.last() - 48) > u64::MAX {
                None
            } else {
                Some((v * 10 + (s.last() - 48)) as u64)
            },
        }
    }
}

/// Once a non-empty digit-run prefix fails to parse, every extension of
/// it fails too.
pub proof fn lemma_parse_u64_prefix_none(s: Seq<u8>, m: int)
    requires
        1 <= m <= s.len(),
        spec_parse_u64(s.subrange(0, m)) is None,
    ensures
        spec_parse_u64(s) is None,
    decreases s.len() - m,
{
    if m == s.len() {
        assert(s.subrange(0, m) =~= s);
    } else {
        assert(s.subrange(0, m + 1).drop_last() =~= s.subrange(0, m));
        lemma_parse_u64_prefix_none(s, m + 1);
    }
}

/// Whether `line` is the `VmHWM:` line of a status file.
pub open spec fn is_hwm_line(line: Seq<u8>) -> bool {
    line.len() >= 6 && line.subrange(0, 6) == hwm_prefix()
}

/// The kilobyte count of a `VmHWM:` line, scaled to bytes: after the
/// label, leading spaces and tabs are skipped, the token up to the next
/// space must be an unsigned decimal, and the result is that value times
/// 1024.  `None` when the token is missing, malformed, or out of range.
pub open spec fn spec_parse_hwm_line(line: Seq<u8>) -> Option<u64>
    recommends
        is_hwm_line(line),
{
    let rest = line.skip(6);
    let t = rest.skip(skip_spaces(rest));
    let sp = find_byte(t, 32);
    if sp == t.len() {
        None
    } else {
        match spec_parse_u64(t.subrange(0, sp)) {
            None => None,
            Some(kb) => if kb * 1024 > u64::MAX {
                None
            } else {
                Some((kb * 1024) as u64)
            },
        }
    }
}

/// The value of the first `VmHWM:` line of the status-file contents,
/// scanning line by line; `None` when the line never appears or is
/// malformed.  The caller treats `None` as "no update".
pub open spec fn spec_parse_vm_hwm(contents: Seq<u8>) -> Option<u64>
    decreases contents.len(),
    via spec_parse_vm_hwm_dec
{
    if contents.len() == 0 {
        None
    } else {
        let e = find_byte(contents, 10);
        let line = contents.subrange(0, e);
        if is_hwm_line(line) {
            spec_parse_hwm_line(line)
        } else if e == contents.len() {
            None
        } else {
            spec_parse_vm_hwm(contents.subrange(e + 1, contents.len() as int))
        }
    }
}

#[via_fn]
proof fn spec_parse_vm_hwm_dec(contents: Seq<u8>) {
    lemma_find_byte_bounds(contents, 10);
}

/// Whether `line` starts with the `VmHWM:` label.
fn is_hwm_line_exec(line: &[u8]) -> (r: bool)
    ensures
        r == is_hwm_line(line@),
{
    if line.len() < 6 {
        return false;
    }
    let ok = *slice_index_get(line, 0) == 86 && *slice_index_get(line, 1) == 109
        && *slice_index_get(line, 2) == 72 && *slice_index_get(line, 3) == 87
        && *slice_index_get(line, 4) == 77 && *slice_index_get(line, 5) == 58;
    proof {
        let pre = line@.subrange(0, 6);
        assert(forall|i: int| 0 <= i < 6 ==> pre[i] == line@[i]);
        if ok {
            assert(pre =~= hwm_prefix());
        } else if pre == hwm_prefix() {
            assert(line@[0] == 86 && line@[1] == 109 && line@[2] == 72 && line@[3] == 87
                && line@[4] == 77 && line@[5] == 58);
            assert(false);
        }
    }
    ok
}

/// Parses the kilobyte count of a `VmHWM:` line into bytes.
#[verifier::loop_isolation(false)]
fn parse_hwm_line(line: &[u8]) -> (r: Option<u64>)
    requires
        is_hwm_line(line@),
    ensures
        r == spec_parse_hwm_line(line@),
{
    let n = line.len();
    let ghost rest = line@.skip(6);
    let mut i: usize = 6;
    while i < n && (*slice_index_get(line, i) == 32 || *slice_index_get(line, i) == 9)
        invariant
            6 <= i <= n,
            n == line@.len(),
            forall|k: int| 6 <= k < i ==> is_space(line@[k]),
        decreases n - i,
    {
        i = i + 1;
    }
    proof {
        assert(forall|k: int| 0 <= k < i - 6 ==> rest[k] == line@[k + 6] && is_space(rest[k]));
        lemma_skip_spaces_at(rest, i - 6);
    }
    let ghost t = rest.skip(skip_spaces(rest));
    proof {
        assert(t =~= line@.skip(i as int));
    }
    let mut j: usize = i;
    while j < n && *slice_index_get(line, j) != 32
        invariant
            i <= j <= n,
            n == line@.len(),
            forall|k: int| i <= k < j ==> line@[k] != 32,
        decreases n - j,
    {
        j = j + 1;
    }
    proof {
        assert(forall|k: int| 0 <= k < j - i ==> t[k] == line@[k + i] && t[k] != 32);
        lemma_find_byte_at(t, 32, j - i);
    }
    if j == n {
        return None;
    }
    let ghost token = t.subrange(0, j - i);
    proof {
        assert(token =~= line@.subrange(i as int, j as int));
    }
    if j == i {
        return None;
    }
    let mut acc: u64 = 0;
    let mut k: usize = i;
    while k < j
        invariant
            i <= k <= j <= n,
            n == line@.len(),
            i < j,
            token == line@.subrange(i as int, j as int),
            k > i ==> spec_parse_u64(token.subrange(0, k - i)) == Some(acc),
            k == i ==> acc == 0,
        decreases j - k,
    {
        let b = *slice_index_get(line, k);
        let ghost done = token.subrange(0, k - i);
        let ghost next = token.subrange(0, k + 1 - i);
        proof {
            assert(next.last() == line@[k as int]);
            assert(next.drop_last() =~= done);
        }
        if !(48 <= b && b <= 57) {
            proof {
                assert(spec_parse_u64(next) is None);
                lemma_parse_u64_prefix_none(token, k + 1 - i);
            }
            return None;
        }
        let d = (b - 48) as u64;
        let step = match acc.checked_mul(10) {
            Some(m) => m.checked_add(d),
            None => None,
        };
        match step {
            Some(v) => {
                acc = v;
            },
            None => {
                proof {
                    assert(spec_parse_u64(next) is None);
                    lemma_parse_u64_prefix_none(token, k + 1 - i);
                }
                return None;
            },
        }
        k = k + 1;
    }
    proof {
        assert(token.subrange(0, j - i) =~= token);
    }
    acc.checked_mul(1024)
}

/// Scans the status-file contents for the first `VmHWM:` line and
/// returns its kilobyte count scaled to bytes, exactly as
/// [`spec_parse_vm_hwm`] says.
#[verifier::loop_isolation(false)]
pub fn parse_vm_hwm(contents: &[u8]) -> (r: Option<u64>)
    ensures
        r == spec_parse_vm_hwm(contents@),
{
    let n = contents.len();
    let mut start: usize = 0;
    proof {
        assert(contents@.skip(0) =~= contents@);
    }
    loop
        invariant
            0 <= start <= n,
            n == contents@.len(),
            spec_parse_vm_hwm(contents@) == spec_parse_vm_hwm(contents@.skip(start as int)),
        decreases n - start,
    {
        let ghost suffix = contents@.skip(start as int);
        if start >= n {
            proof {
                assert(suffix.len() == 0);
            }
            return None;
        }
        let mut j: usize = start;
        while j < n && *slice_index_get(contents, j) != 10
            invariant
                start <= j <= n,
                n == contents@.len(),
                forall|k: int| start <= k < j ==> contents@[k] != 10,
            decreases n - j,
        {
            j = j + 1;
        }
        proof {
            assert(forall|k: int|
                0 <= k < j - start ==> suffix[k] == contents@[k + start] && suffix[k] != 10);
            lemma_find_byte_at(suffix, 10, j - start);
        }
        let line = slice_subrange(contents, start, j);
        proof {
            assert(line@ =~= suffix.subrange(0, j - start));
        }
        if is_hwm_line_exec(line) {
            return parse_hwm_line(line);
        }
        if j == n {
            return None;
        }
        proof {
            assert(suffix.subrange(j - start + 1, suffix.len() as int) =~= contents@.skip(
                j as int + 1,
            ));
        }
        start = j + 1;
    }
}

/// The high-water mark after a whole run of samples, starting from zero.
pub open spec fn spec_hwm_fold(samples: Seq<Option<u64>>) -> u64
    decreases samples.len(),
{
    if samples.len() == 0 {
        0u64
    } else {
        spec_observe_hwm(spec_hwm_fold(samples.drop_last()), samples.last())
    }
}

/// The reported high-water mark is monotonically non-decreasing across
/// the samples taken during the child's life: one more sample never
/// lowers it.
pub proof fn lemma_hwm_monotone(samples: Seq<Option<u64>>, more: Option<u64>)
    ensures
        spec_hwm_fold(samples.push(more)) >= spec_hwm_fold(samples),
{
    assert(samples.push(more).drop_last() =~= samples);
}

/// The high-water mark after a run of samples is never below any single
/// sample of the run: the worker never reports a smaller mark than one
/// it previously observed.
pub proof fn lemma_hwm_dominates_samples(samples: Seq<Option<u64>>, i: int, v: u64)
    requires
        0 <= i < samples.len(),
        samples[i] == Some(v),
    ensures
        spec_hwm_fold(samples) >= v,
    decreases samples.len(),
{
    if i == samples.len() - 1 {
    } else {
        lemma_hwm_dominates_samples(samples.drop_last(), i, v);
    }
}

} // verus!
