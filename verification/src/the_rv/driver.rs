//! The commands that drive the browser helper, under the browser policy.

use crate::jesse::runner::JesseRunner;
use crate::saul::policy::{PolicyEngine, PolicyError};
use crate::text::{owned, push_str};
use vstd::prelude::*;

verus! {

/// What the helper script is asked to do.
#[derive(Debug, Clone, Copy, PartialEq, Eq, Structural)]
pub enum DriveVerb {
    /// Navigate to a URL.
    Open,
    /// Click an element by selector.
    Click,
}

/// The helper's command for a verb and its argument, quoted in single
/// quotes as given.
pub open spec fn drive_script(verb: DriveVerb, target: Seq<char>) -> Seq<char> {
    let word = match verb {
        DriveVerb::Open => "open"@,
        DriveVerb::Click => "click"@,
    };
    "bash scripts/drive.sh "@ + word + " '"@ + target + "'"@
}

/// The error reported when the helper exits with a failure.
pub open spec fn drive_failure_text(verb: DriveVerb, stderr: Seq<char>) -> Seq<char> {
    match verb {
        DriveVerb::Open => "Browser driver failed: "@ + stderr,
        DriveVerb::Click => "Browser click failed: "@ + stderr,
    }
}

/// Drives the browser through the helper script when the policy allows.
pub struct BrowserDriver {
    pub policy: PolicyEngine,
    pub runner: JesseRunner,
}

impl BrowserDriver {
    /// A driver under a policy, running the helper with `runner`.
    pub fn new(policy: PolicyEngine, runner: JesseRunner) -> (d: BrowserDriver)
        ensures
            d.policy == policy,
    {
        BrowserDriver { policy, runner }
    }

    /// The command for `verb` on `target`, refused unless browser
    /// automation is enabled.
    pub fn command(&self, verb: DriveVerb, target: &str) -> (r: Result<String, PolicyError>)
        ensures
            r is Err <==> !self.policy.allow_browser,
            r matches Err(e) ==> e is BrowserDisabled,
            r matches Ok(s) ==> s@ == drive_script(verb, target@),
    {
        self.policy.check_browser()?;
        let word = match verb {
            DriveVerb::Open => "open",
            DriveVerb::Click => "click",
        };
        let mut s = owned("bash scripts/drive.sh ");
        push_str(&mut s, word);
        push_str(&mut s, " '");
        push_str(&mut s, target);
        push_str(&mut s, "'");
        Ok(s)
    }
}

/// The error text for a helper run that failed.
pub fn drive_failure(verb: DriveVerb, stderr: &str) -> (s: String)
    ensures
        s@ == drive_failure_text(verb, stderr@),
{
    let mut s = match verb {
        DriveVerb::Open => owned("Browser driver failed: "),
        DriveVerb::Click => owned("Browser click failed: "),
    };
    push_str(&mut s, stderr);
    s
}

} // verus!
