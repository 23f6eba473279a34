//! Process results and the verified compute core of the process runner.
//!
//! A run of the external tool is observed as a sequence of output lines (its
//! two output streams merged, standard output first, then standard error) and
//! an optional exit code. Everything that run decides or computes is here:
//! the announcement line for the command, the incremental accumulation of
//! trimmed lines into one buffer, the echo line emitted per observed line,
//! and the resolution of the exit status. The launching, pipe draining and
//! waiting themselves are I/O and live outside this library; they feed plain
//! lines and the optional code into these types.

use vstd::prelude::*;
use vstd::string::StringExecFns;
use crate::text::trim_end_of;
use crate::text::trim_end_spec;
use crate::text::trim_of;
use crate::text::trim_spec;

verus! {

/// The exit status substituted when the child terminated abnormally (killed
/// by a signal, no exit code available): callers never observe an absent
/// status.
pub const FALLBACK_EXIT_STATUS: i32 = 1;

/// The status a run resolves to: the child's own code when it exited
/// normally, the fallback when no code was available.
pub open spec fn resolved_status(code: Option<i32>) -> i32 {
    match code {
        Some(c) => c,
        None => FALLBACK_EXIT_STATUS,
    }
}

/// The merged capture text of a run: for each observed line in order, a
/// newline separator followed by the line with trailing whitespace removed.
pub open spec fn capture_text(lines: Seq<Seq<char>>) -> Seq<char>
    decreases lines.len(),
{
    if lines.len() == 0 {
        Seq::empty()
    } else {
        capture_text(lines.drop_last()) + seq!['\n'] + trim_end_spec(lines.last())
    }
}

/// The line emitted to the observability sink for one observed line: a
/// leading bar marker, then the raw line.
pub open spec fn echo_line_spec(line: Seq<char>) -> Seq<char> {
    "|  "@ + line
}

/// The announcement of a full command: the tool's name, then each argument
/// preceded by a single space.
pub open spec fn command_line_spec(args: Seq<Seq<char>>) -> Seq<char>
    decreases args.len(),
{
    if args.len() == 0 {
        "docker"@
    } else {
        command_line_spec(args.drop_last()) + seq![' '] + args.last()
    }
}

/// The normalized outcome of one run: the full merged output text and the
/// resolved exit status. A nonzero status is a successfully captured result,
/// not an error.
pub struct DockerProcessResult {
    pub output: String,
    pub exit_status: i32,
}

/// A build run's result: the process result plus the tag that was requested,
/// carried through unchanged for the caller's convenience.
pub struct DockerBuildResult {
    pub process: DockerProcessResult,
    pub tag: Option<String>,
}

impl DockerBuildResult {
    /// Pair a process result with the tag the build was configured with.
    pub fn new(process: DockerProcessResult, tag: Option<String>) -> (r: DockerBuildResult)
        ensures
            r.process == process,
            r.tag == tag,
    {
        DockerBuildResult { process, tag }
    }
}

/// A create run's result: the process result plus the container identifier
/// derived from it. The whole merged output is expected to be exactly the
/// identifier the tool emitted; if diagnostic lines were merged in, the
/// derivation degrades with them.
pub struct DockerCreateResult {
    pub process: DockerProcessResult,
    pub container_id: String,
}

impl DockerCreateResult {
    /// Derive the container identifier by trimming the whole output, eagerly,
    /// and keep the process result beside it.
    pub fn new(process: DockerProcessResult) -> (r: DockerCreateResult)
        ensures
            r.process == process,
            r.container_id@ == trim_spec(process.output@),
    {
        let container_id = trim_of(process.output.as_str()).to_owned();
        DockerCreateResult { process, container_id }
    }
}

/// A run that produced no process result at all. A nonzero exit status is
/// not such a failure; only these two conditions are.
pub enum ExecutionError {
    /// The external tool could not be started (binary missing, permission
    /// denied). Fatal to the invocation; no process result exists.
    Launch(String),
    /// An I/O failure while draining an output pipe mid-run; the run is
    /// aborted without attempting partial-result recovery.
    StreamRead(String),
}

/// An executable command for the external tool: the ordered argument vector,
/// preserved exactly as a builder produced it.
pub struct Docker {
    pub args: Vec<String>,
}

impl Docker {
    /// Wrap an argument vector, unchanged and in order.
    pub fn new(args: Vec<String>) -> (d: Docker)
        ensures
            d.args == args,
    {
        Docker { args }
    }

    /// The announcement line for this command: the tool's name and every
    /// argument, joined by single spaces.
    pub fn command_line(&self) -> (r: String)
        ensures
            r@ == command_line_spec(self.args.deep_view()),
    {
        let mut line = "docker".to_owned();
        proof {
            assert(self.args.deep_view().take(0) =~= Seq::<Seq<char>>::empty());
        }
        let mut i: usize = 0;
        while i < self.args.len()
            invariant
                i <= self.args.len(),
                line@ == command_line_spec(self.args.deep_view().take(i as int)),
            decreases self.args.len() - i,
        {
            line.append(" ");
            line.append(self.args[i].as_str());
            proof {
                reveal_strlit(" ");
                assert(" "@ =~= seq![' ']);
                assert(self.args.deep_view().take(i + 1).drop_last() =~= self.args.deep_view()
                    .take(i as int));
            }
            i = i + 1;
        }
        proof {
            assert(self.args.deep_view().take(self.args.len() as int) =~= self.args.deep_view());
        }
        line
    }
}

/// Resolve a child's reported exit code: a present code is used as is; an
/// absent one (abnormal termination) becomes the fallback status.
pub fn resolve_exit_status(code: Option<i32>) -> (s: i32)
    ensures
        s == resolved_status(code),
{
    match code {
        Some(c) => c,
        None => FALLBACK_EXIT_STATUS,
    }
}

/// The accumulating output buffer of one run, fed one observed line at a
/// time so that long-running invocations stay observable while they run.
/// Each run owns its own capture; nothing is shared across runs.
pub struct OutputCapture {
    buf: String,
    lines: Ghost<Seq<Seq<char>>>,
}

impl OutputCapture {
    /// The lines observed so far, in order, untrimmed.
    pub closed spec fn captured(&self) -> Seq<Seq<char>> {
        self.lines@
    }

    /// The buffer holds exactly the capture text of the observed lines.
    pub closed spec fn wf(&self) -> bool {
        self.buf@ == capture_text(self.lines@)
    }

    /// An empty capture, ready for a fresh run.
    pub fn new() -> (c: OutputCapture)
        ensures
            c.wf(),
            c.captured() == Seq::<Seq<char>>::empty(),
    {
        OutputCapture { buf: String::new(), lines: Ghost(Seq::empty()) }
    }

    /// Record one observed line: a newline separator and the line with
    /// trailing whitespace removed are appended to the buffer, and the echo
    /// line to emit for live observability is returned.
    pub fn push_line(&mut self, line: &str) -> (echo: String)
        requires
            old(self).wf(),
        ensures
            final(self).wf(),
            final(self).captured() == old(self).captured().push(line@),
            echo@ == echo_line_spec(line@),
    {
        self.buf.append("\n");
        let trimmed = trim_end_of(line);
        self.buf.append(trimmed);
        proof {
            reveal_strlit("\n");
            assert("\n"@ =~= seq!['\n']);
            assert(old(self).captured().push(line@).drop_last() =~= old(self).captured());
        }
        self.lines = Ghost(self.lines@.push(line@));
        let mut echo = "|  ".to_owned();
        echo.append(line);
        echo
    }

    /// Conclude the run: resolve the exit status and hand out the accumulated
    /// buffer as the run's one process result.
    pub fn finish(self, code: Option<i32>) -> (r: DockerProcessResult)
        requires
            self.wf(),
        ensures
            r.output@ == capture_text(self.captured()),
            r.exit_status == resolved_status(code),
    {
        let exit_status = resolve_exit_status(code);
        DockerProcessResult { output: self.buf, exit_status }
    }
}

/// Law: the capture text of a run contains every observed line whole — the
/// line's trimmed text appears as one contiguous block, untruncated, at some
/// offset of the buffer.
pub proof fn lemma_capture_contains_each_line(lines: Seq<Seq<char>>, i: int)
    requires
        0 <= i < lines.len(),
    ensures
        exists|off: int|
            0 <= off && off + trim_end_spec(lines[i]).len() <= capture_text(lines).len()
                && #[trigger] capture_text(lines).subrange(
                off,
                off + trim_end_spec(lines[i]).len(),
            ) == trim_end_spec(lines[i]),
    decreases lines.len(),
{
    let k = trim_end_spec(lines[i]).len() as int;
    let text = capture_text(lines);
    if i == lines.len() - 1 {
        let off = (capture_text(lines.drop_last()).len() + 1) as int;
        assert(text.subrange(off, off + k) =~= trim_end_spec(lines[i]));
        assert(0 <= off && off + k <= text.len() && text.subrange(off, off + k)
            == trim_end_spec(lines[i]));
    } else {
        let shorter = lines.drop_last();
        assert(shorter[i] == lines[i]);
        lemma_capture_contains_each_line(shorter, i);
        let off = choose|off: int|
            0 <= off && off + k <= capture_text(shorter).len()
                && #[trigger] capture_text(shorter).subrange(off, off + k) == trim_end_spec(
                shorter[i],
            );
        assert(text.subrange(off, off + k) =~= capture_text(shorter).subrange(off, off + k));
        assert(0 <= off && off + k <= text.len() && text.subrange(off, off + k)
            == trim_end_spec(lines[i]));
    }
}

/// Law: one observation, one result. Two process results assembled from the
/// same observed lines and the same reported exit code agree on both their
/// output text and their exit status — running the same deterministic child
/// twice yields equal results.
pub proof fn lemma_result_deterministic(
    lines: Seq<Seq<char>>,
    code: Option<i32>,
    r1: DockerProcessResult,
    r2: DockerProcessResult,
)
    requires
        r1.output@ == capture_text(lines),
        r1.exit_status == resolved_status(code),
        r2.output@ == capture_text(lines),
        r2.exit_status == resolved_status(code),
    ensures
        r1.output@ == r2.output@,
        r1.exit_status == r2.exit_status,
{
}

} // verus!
