//! The script runner's settings and the shaping of captured output.

use crate::jesse::output::ExecutionResult;
use crate::saul::config::Config;
use crate::saul::policy::PolicyEngine;
use crate::text::{owned, push_str};
use vstd::prelude::*;
use vstd::string::StringSliceAdditionalSpecFns;
use vstd::utf8::{encode_utf8, is_char_boundary};

verus! {

/// The marker appended to output that was cut.
pub const TRUNCATION_MARK: &'static str = "\n... [truncated]";

/// Runs scripts in a work directory, under a timeout and an output limit.
pub struct JesseRunner {
    work_dir: String,
    timeout_secs: u64,
    max_output_bytes: usize,
    policy: PolicyEngine,
}

/// UTF-8 encoding distributes over concatenation.
pub proof fn lemma_encode_concat(a: Seq<char>, b: Seq<char>)
    ensures
        encode_utf8(a + b) == encode_utf8(a) + encode_utf8(b),
    decreases a.len(),
{
    if a.len() == 0 {
        assert(a + b =~= b);
    } else {
        assert((a + b).drop_first() =~= a.drop_first() + b);
        lemma_encode_concat(a.drop_first(), b);
    }
}

/// The bytes of captured output after the limit: unchanged when within
/// `max` bytes, else the first `max` bytes and the truncation mark.
pub open spec fn capped_bytes(text: Seq<char>, max: nat) -> Seq<u8> {
    if encode_utf8(text).len() > max {
        encode_utf8(text).subrange(0, max as int) + encode_utf8(TRUNCATION_MARK@)
    } else {
        encode_utf8(text)
    }
}

/// Capped output never runs more than the truncation mark past the limit,
/// and output within the limit is kept unchanged.
pub proof fn lemma_capped_within_limit(text: Seq<char>, max: nat)
    ensures
        capped_bytes(text, max).len() <= max + encode_utf8(TRUNCATION_MARK@).len(),
        encode_utf8(text).len() <= max ==> capped_bytes(text, max) == encode_utf8(text),
{
}

/// Cutting at `max` bytes is possible: the output's bytes fit in memory,
/// and it is within the limit or `max` falls on a character boundary.
pub open spec fn cuttable(text: Seq<char>, max: nat) -> bool {
    &&& encode_utf8(text).len() <= usize::MAX
    &&& encode_utf8(text).len() <= max || is_char_boundary(encode_utf8(text), max as int)
}

/// Output kept within `max` bytes, marked when cut.
pub fn cap_output(text: String, max: usize) -> (r: String)
    requires
        cuttable(text@, max as nat),
    ensures
        encode_utf8(r@) == capped_bytes(text@, max as nat),
{
    let t = text.as_str();
    assert(t.spec_bytes() == encode_utf8(text@));
    if t.len() > max {
        let (head, _) = t.split_at(max);
        assert(encode_utf8(head@) == encode_utf8(text@).subrange(0, max as int));
        let mut out = owned(head);
        push_str(&mut out, TRUNCATION_MARK);
        proof {
            lemma_encode_concat(head@, TRUNCATION_MARK@);
        }
        out
    } else {
        text
    }
}

impl JesseRunner {
    /// A runner with the configured work directory, timeout, output limit
    /// and policy.
    pub fn new(cfg: &Config) -> (r: JesseRunner)
        ensures
            r.dir() == cfg.execution.work_dir@,
            r.timeout() == cfg.execution.script_timeout_secs,
            r.output_limit() == cfg.execution.max_output_bytes,
            r.rules() == (PolicyEngine {
                allow_external_writes: false,
                allow_browser: cfg.execution.browser_enabled,
                allow_self_modification: cfg.agent.self_improvement,
                allow_network: false,
                max_exec_secs: cfg.execution.script_timeout_secs,
            }),
    {
        JesseRunner {
            work_dir: cfg.execution.work_dir.clone(),
            timeout_secs: cfg.execution.script_timeout_secs,
            max_output_bytes: cfg.execution.max_output_bytes,
            policy: PolicyEngine::from_config(cfg),
        }
    }

    /// The work directory.
    pub closed spec fn dir(&self) -> Seq<char> {
        self.work_dir@
    }

    /// The timeout in seconds.
    pub closed spec fn timeout(&self) -> u64 {
        self.timeout_secs
    }

    /// The output limit in bytes.
    pub closed spec fn output_limit(&self) -> usize {
        self.max_output_bytes
    }

    /// The policy enforced.
    pub closed spec fn rules(&self) -> PolicyEngine {
        self.policy
    }

    /// The directory scripts run in.
    pub fn work_dir(&self) -> (d: &str)
        ensures
            d@ == self.dir(),
    {
        self.work_dir.as_str()
    }

    /// The timeout in seconds.
    pub fn timeout_secs(&self) -> (t: u64)
        ensures
            t == self.timeout(),
    {
        self.timeout_secs
    }

    /// The output limit in bytes.
    pub fn max_output_bytes(&self) -> (m: usize)
        ensures
            m == self.output_limit(),
    {
        self.max_output_bytes
    }

    /// The policy the runner enforces.
    pub fn policy(&self) -> (p: &PolicyEngine)
        ensures
            *p == self.rules(),
    {
        &self.policy
    }

    /// The result of a finished run: the exit code (-1 when the process
    /// had none, as when killed by a signal), both outputs capped at the
    /// output limit, and the run time.
    pub fn finish(&self, exit_code: Option<i32>, stdout: String, stderr: String, elapsed_ms: u64) -> (r:
        ExecutionResult)
        requires
            cuttable(stdout@, self.output_limit() as nat),
            cuttable(stderr@, self.output_limit() as nat),
        ensures
            r.exit_code == (match exit_code {
                Some(c) => c,
                None => -1i32,
            }),
            encode_utf8(r.stdout@) == capped_bytes(stdout@, self.output_limit() as nat),
            encode_utf8(r.stderr@) == capped_bytes(stderr@, self.output_limit() as nat),
            r.elapsed_ms == elapsed_ms,
    {
        let code = match exit_code {
            Some(c) => c,
            None => -1,
        };
        ExecutionResult {
            exit_code: code,
            stdout: cap_output(stdout, self.max_output_bytes),
            stderr: cap_output(stderr, self.max_output_bytes),
            elapsed_ms,
        }
    }
}

} // verus!
