//! Runtime policy: what the agent may do.

use crate::saul::config::Config;
use crate::text::{owned, push_str};
use vstd::prelude::*;

verus! {

/// What `std::path::Path::starts_with` answers for two paths (whole
/// components only).
pub uninterp spec fn path_prefix(path: Seq<char>, base: Seq<char>) -> bool;

/// Calls `Path::starts_with` on the two paths. Its answer is named
/// `path_prefix`; a path is always a prefix of itself.
#[verifier::external_body]
fn path_starts_with(path: &str, base: &str) -> (b: bool)
    ensures
        b == path_prefix(path@, base@),
        path@ == base@ ==> b,
{
    std::path::Path::new(path).starts_with(std::path::Path::new(base))
}

/// Governs what the agent is permitted to do at runtime.
#[derive(Debug, Clone, Copy, PartialEq, Eq, Structural)]
pub struct PolicyEngine {
    /// Whether filesystem writes outside the work directory are allowed.
    pub allow_external_writes: bool,
    /// Whether browser automation is permitted.
    pub allow_browser: bool,
    /// Whether self-modification patches may be applied.
    pub allow_self_modification: bool,
    /// Whether network access is permitted (always false in local mode).
    pub allow_network: bool,
    /// Max script execution time.
    pub max_exec_secs: u64,
}

/// A refused action.
#[derive(Debug)]
pub enum PolicyError {
    /// The path (as given) lies outside the work directory (as given).
    OutsideWorkDir { path: String, work_dir: String },
    BrowserDisabled,
    SelfModificationDisabled,
}

/// The text of a policy error.
pub open spec fn policy_error_text(e: PolicyError) -> Seq<char> {
    match e {
        PolicyError::OutsideWorkDir { path, work_dir } => "Policy violation: path '"@ + path@
            + "' is outside work dir '"@ + work_dir@ + "'"@,
        PolicyError::BrowserDisabled => "Policy: browser automation is disabled. Enable via config."@,
        PolicyError::SelfModificationDisabled =>
            "Policy: self-modification is disabled. Set agent.self_improvement = true in config."@,
    }
}

impl PolicyError {
    /// The error's text.
    pub fn message(&self) -> (s: String)
        ensures
            s@ == policy_error_text(*self),
    {
        match self {
            PolicyError::OutsideWorkDir { path, work_dir } => {
                let mut s = owned("Policy violation: path '");
                push_str(&mut s, path.as_str());
                push_str(&mut s, "' is outside work dir '");
                push_str(&mut s, work_dir.as_str());
                push_str(&mut s, "'");
                s
            },
            PolicyError::BrowserDisabled => owned(
                "Policy: browser automation is disabled. Enable via config.",
            ),
            PolicyError::SelfModificationDisabled => owned(
                "Policy: self-modification is disabled. Set agent.self_improvement = true in config.",
            ),
        }
    }
}

impl PolicyEngine {
    /// The policy a configuration grants: no external writes, no network,
    /// browser and self-modification as configured, the script timeout as
    /// the execution limit.
    pub fn from_config(cfg: &Config) -> (p: PolicyEngine)
        ensures
            !p.allow_external_writes,
            p.allow_browser == cfg.execution.browser_enabled,
            p.allow_self_modification == cfg.agent.self_improvement,
            !p.allow_network,
            p.max_exec_secs == cfg.execution.script_timeout_secs,
    {
        PolicyEngine {
            allow_external_writes: false,
            allow_browser: cfg.execution.browser_enabled,
            allow_self_modification: cfg.agent.self_improvement,
            allow_network: false,
            max_exec_secs: cfg.execution.script_timeout_secs,
        }
    }

    /// Checks that `path` lies within `work_dir`, comparing their resolved
    /// forms `resolved_path` and `resolved_work` (each the canonical path, or
    /// the path as given where it cannot be resolved). External writes, when
    /// allowed, pass.
    pub fn check_path(
        &self,
        path: &str,
        work_dir: &str,
        resolved_path: &str,
        resolved_work: &str,
    ) -> (r: Result<(), PolicyError>)
        ensures
            r is Err <==> !self.allow_external_writes && !path_prefix(resolved_path@, resolved_work@),
            r matches Err(e) ==> e matches PolicyError::OutsideWorkDir { path: p, work_dir: w } && p@
                == path@ && w@ == work_dir@,
    {
        if !self.allow_external_writes {
            if !path_starts_with(resolved_path, resolved_work) {
                return Err(
                    PolicyError::OutsideWorkDir { path: owned(path), work_dir: owned(work_dir) },
                );
            }
        }
        Ok(())
    }

    /// Refuses browser automation unless it is enabled.
    pub fn check_browser(&self) -> (r: Result<(), PolicyError>)
        ensures
            r is Err <==> !self.allow_browser,
            r matches Err(e) ==> e is BrowserDisabled,
    {
        if !self.allow_browser {
            return Err(PolicyError::BrowserDisabled);
        }
        Ok(())
    }

    /// Refuses self-modification unless it is enabled.
    pub fn check_self_modification(&self) -> (r: Result<(), PolicyError>)
        ensures
            r is Err <==> !self.allow_self_modification,
            r matches Err(e) ==> e is SelfModificationDisabled,
    {
        if !self.allow_self_modification {
            return Err(PolicyError::SelfModificationDisabled);
        }
        Ok(())
    }
}

} // verus!
