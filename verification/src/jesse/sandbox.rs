//! Screening scripts before they run.

use crate::text::{contains, owned, push_str, str_contains};
use vstd::prelude::*;

verus! {

/// Why a script was refused.
#[derive(Debug)]
pub enum SandboxError {
    /// The script holds this dangerous pattern.
    Blocked(String),
}

/// The text of a sandbox error.
pub open spec fn sandbox_error_text(e: SandboxError) -> Seq<char> {
    match e {
        SandboxError::Blocked(p) => "Blocked dangerous pattern: '"@ + p@ + "'"@,
    }
}

impl SandboxError {
    /// The error's text.
    pub fn message(&self) -> (s: String)
        ensures
            s@ == sandbox_error_text(*self),
    {
        match self {
            SandboxError::Blocked(p) => {
                let mut s = owned("Blocked dangerous pattern: '");
                push_str(&mut s, p.as_str());
                push_str(&mut s, "'");
                s
            },
        }
    }
}

/// The refused patterns, in the order they are checked.
pub open spec fn blocked_patterns() -> Seq<Seq<char>> {
    seq!["rm -rf /"@, "mkfs"@, "dd if=/dev/zero of=/dev/"@, ":(){:|:&};:"@]
}

/// The first refused pattern at or after index `i` that `script` holds.
pub open spec fn first_blocked_from(script: Seq<char>, i: int) -> Option<Seq<char>>
    decreases blocked_patterns().len() - i,
{
    if i < 0 || i >= blocked_patterns().len() {
        None
    } else if contains(script, blocked_patterns()[i]) {
        Some(blocked_patterns()[i])
    } else {
        first_blocked_from(script, i + 1)
    }
}

fn blocked_pattern(i: usize) -> (p: &'static str)
    requires
        i < 4,
    ensures
        p@ == blocked_patterns()[i as int],
{
    if i == 0 {
        "rm -rf /"
    } else if i == 1 {
        "mkfs"
    } else if i == 2 {
        "dd if=/dev/zero of=/dev/"
    } else {
        ":(){:|:&};:"
    }
}

/// Refuses a script that holds an obviously destructive pattern; the error
/// names the first such pattern.
pub fn validate_script(script: &str) -> (r: Result<(), SandboxError>)
    ensures
        r is Ok <==> first_blocked_from(script@, 0) is None,
        r matches Err(SandboxError::Blocked(p)) ==> first_blocked_from(script@, 0) == Some(p@),
{
    let mut i: usize = 0;
    while i < 4
        invariant
            i <= 4,
            blocked_patterns().len() == 4,
            first_blocked_from(script@, 0) == first_blocked_from(script@, i as int),
        decreases 4 - i,
    {
        let pattern = blocked_pattern(i);
        if str_contains(script, pattern) {
            return Err(SandboxError::Blocked(owned(pattern)));
        }
        i = i + 1;
    }
    Ok(())
}

} // verus!
