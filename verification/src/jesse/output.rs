//! The structured result of running a script.

use crate::text::{decimal, owned, push_decimal, push_signed_decimal, push_str, signed_decimal};
use vstd::prelude::*;
use vstd::utf8::encode_utf8;

verus! {

/// Exit code, captured output and run time of a script.
#[derive(Debug)]
pub struct ExecutionResult {
    pub exit_code: i32,
    pub stdout: String,
    pub stderr: String,
    pub elapsed_ms: u64,
}

/// Standard output, followed by the standard error under a `[stderr]:`
/// marker when there is any.
pub open spec fn combined_text(stdout: Seq<char>, stderr: Seq<char>) -> Seq<char> {
    if stderr.len() == 0 {
        stdout
    } else {
        stdout + "\n[stderr]: "@ + stderr
    }
}

/// A one-line summary: status, exit code, run time and the byte length of
/// standard output.
pub open spec fn summary_text(exit_code: i32, elapsed_ms: u64, stdout: Seq<char>) -> Seq<char> {
    "["@ + (if exit_code == 0 {
        "OK"@
    } else {
        "FAIL"@
    }) + "] exit="@ + signed_decimal(exit_code as int) + " elapsed="@ + decimal(elapsed_ms as nat)
        + "ms stdout_len="@ + decimal(encode_utf8(stdout).len())
}

impl ExecutionResult {
    /// The script exited with code 0.
    pub fn success(&self) -> (b: bool)
        ensures
            b == (self.exit_code == 0),
    {
        self.exit_code == 0
    }

    /// Standard output and, when there is any, standard error.
    pub fn combined_output(&self) -> (s: String)
        ensures
            s@ == combined_text(self.stdout@, self.stderr@),
    {
        if self.stderr.as_str().is_empty() {
            self.stdout.clone()
        } else {
            let mut s = self.stdout.clone();
            push_str(&mut s, "\n[stderr]: ");
            push_str(&mut s, self.stderr.as_str());
            s
        }
    }

    /// A one-line summary such as `[OK] exit=0 elapsed=12ms stdout_len=5`.
    pub fn summary(&self) -> (s: String)
        requires
            encode_utf8(self.stdout@).len() <= usize::MAX,
        ensures
            s@ == summary_text(self.exit_code, self.elapsed_ms, self.stdout@),
    {
        let mut s = owned("[");
        if self.success() {
            push_str(&mut s, "OK");
        } else {
            push_str(&mut s, "FAIL");
        }
        push_str(&mut s, "] exit=");
        push_signed_decimal(&mut s, self.exit_code as i64);
        push_str(&mut s, " elapsed=");
        push_decimal(&mut s, self.elapsed_ms);
        push_str(&mut s, "ms stdout_len=");
        let n = self.stdout.as_str().len();
        push_decimal(&mut s, n as u64);
        assert(s@ =~= summary_text(self.exit_code, self.elapsed_ms, self.stdout@));
        s
    }
}

} // verus!
