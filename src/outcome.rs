//! Deciding whether a scheme's build succeeded.
//!
//! Two policies exist. In line-scanning mode the captured output is
//! authoritative: the build succeeded iff some line begins with the success
//! marker, whatever the exit status. In chained mode the build process's own
//! exit status is authoritative and the formatter's status is ignored.

use vstd::prelude::*;
use crate::text::{is_prefix, has_prefix};

verus! {

/// The line that the build tool prints when a build succeeds.
pub const SUCCESS_MARKER: &'static str = "** BUILD SUCCEEDED **";

/// The line begins with the success marker.
pub open spec fn marks_success(line: Seq<char>) -> bool {
    is_prefix(SUCCESS_MARKER@, line)
}

/// Some line of the output begins with the success marker.
pub open spec fn output_marks_success(lines: Seq<Seq<char>>) -> bool {
    exists|i: int| 0 <= i < lines.len() && marks_success(#[trigger] lines[i])
}

/// Whether this output line announces a successful build.
pub fn is_success_line(line: &str) -> (r: bool)
    ensures
        r == marks_success(line@),
{
    has_prefix(line, SUCCESS_MARKER)
}

/// The state of a line-scanning build while its output streams in.
pub struct OutputScan {
    /// Whether a success line has been seen so far.
    pub succeeded: bool,
}

impl OutputScan {
    /// A scan that has seen no line yet.
    pub fn new() -> (r: OutputScan)
        ensures
            !r.succeeded,
    {
        OutputScan { succeeded: false }
    }

    /// Takes in one captured output line and returns the text to append to
    /// the output log: the line verbatim, then a newline.
    pub fn observe(&mut self, line: &str) -> (r: String)
        ensures
            final(self).succeeded == (old(self).succeeded || marks_success(line@)),
            r@ == line@.push('\n'),
    {
        if is_success_line(line) {
            self.succeeded = true;
        }
        let mut out = line.to_string();
        out.append("\n");
        proof {
            reveal_strlit("\n");
        }
        assert(out@ =~= line@.push('\n'));
        out
    }

    /// The outcome once the build process has exited.
    pub fn outcome(&self) -> (r: bool)
        ensures
            r == self.succeeded,
    {
        self.succeeded
    }
}

/// The line-scanning outcome of a whole captured output: succeeded iff some
/// line begins with the success marker.
pub fn outcome_of_output(lines: &Vec<String>) -> (r: bool)
    ensures
        r == output_marks_success(lines.deep_view()),
{
    let mut scan = OutputScan::new();
    let mut i: usize = 0;
    while i < lines.len()
        invariant
            i <= lines.len(),
            scan.succeeded == output_marks_success(lines.deep_view().take(i as int)),
        decreases lines.len() - i,
    {
        let ghost taken = lines.deep_view().take(i as int + 1);
        let _ = scan.observe(lines[i].as_str());
        assert(taken[i as int] == lines[i as int]@);
        assert(forall|k: int| 0 <= k < i ==> taken[k] == lines.deep_view().take(i as int)[k]);
        i = i + 1;
    }
    assert(lines.deep_view().take(lines.len() as int) =~= lines.deep_view());
    scan.outcome()
}

/// The chained-mode outcome: the build process's own exit status decides;
/// the formatter's status is not consulted.
pub fn outcome_of_exit(build_exit_ok: bool, _formatter_exit_ok: bool) -> (r: bool)
    ensures
        r == build_exit_ok,
{
    build_exit_ok
}

} // verus!
