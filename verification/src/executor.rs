//! Classification of finished invocations of the version-control tool.
//!
//! The tool itself is spawned outside the library; what comes back — the
//! exit status and the two captured output streams — is classified here.
//! Exit status zero alone decides success, and no output is ever silently
//! discarded.

use vstd::prelude::*;

verus! {

/// Diagnostics of one failed invocation: the full argument vector and both
/// captured output streams.
#[derive(Debug)]
pub struct CommandFailure {
    pub args: Vec<String>,
    pub stdout: Vec<u8>,
    pub stderr: Vec<u8>,
}

/// An ASCII-range whitespace byte (tab, line feed, vertical tab, form
/// feed, carriage return, space), as trimmed from the end of captured
/// output.
pub open spec fn is_ascii_whitespace(b: u8) -> bool {
    b == 9 || b == 10 || b == 11 || b == 12 || b == 13 || b == 32
}

/// `s` with every trailing ASCII whitespace byte removed.
pub open spec fn trimmed_end(s: Seq<u8>) -> Seq<u8>
    decreases s.len(),
{
    if s.len() > 0 && is_ascii_whitespace(s.last()) {
        trimmed_end(s.drop_last())
    } else {
        s
    }
}

/// Classifies one finished invocation of the version-control tool.  Success
/// is defined solely by exit status zero and carries the captured standard
/// output with trailing whitespace removed; failure carries the argument
/// vector and both streams in full.  The trim here covers the ASCII range;
/// trailing whitespace beyond it only becomes visible after decoding, so a
/// caller that turns the bytes into text trims the text once more.
pub fn get_git_output(status_zero: bool, stdout: Vec<u8>, stderr: Vec<u8>, args: Vec<String>) -> (r:
    Result<Vec<u8>, CommandFailure>)
    ensures
        status_zero ==> (r matches Ok(out) && out@ == trimmed_end(stdout@)),
        !status_zero ==> (r matches Err(f) && f.args@ == args@ && f.stdout@ == stdout@ && f.stderr@
            == stderr@),
{
    if status_zero {
        let mut out = stdout;
        loop
            invariant
                trimmed_end(out@) == trimmed_end(stdout@),
            ensures
                out@ == trimmed_end(stdout@),
            decreases out@.len(),
        {
            let n = out.len();
            if n == 0 {
                break;
            }
            let b = out[n - 1];
            if b == 9 || b == 10 || b == 11 || b == 12 || b == 13 || b == 32 {
                assert(out@.subrange(0, out@.len() - 1) == out@.drop_last());
                out.pop();
            } else {
                assert(trimmed_end(out@) == out@);
                break;
            }
        }
        Ok(out)
    } else {
        Err(CommandFailure { args, stdout, stderr })
    }
}

} // verus!
