//! Configuration, runtime policy, and the command line the program accepts.

pub mod config;
pub mod policy;

use vstd::prelude::*;

verus! {

/// The parsed command line.
#[derive(Debug)]
pub struct Cli {
    /// Path to the config file (default `~/.config/heisenberg/config.toml`).
    pub config: Option<String>,
    /// Verbose (debug) logging.
    pub verbose: bool,
    pub command: Option<Commands>,
}

/// What the program is asked to do.
#[derive(Debug)]
pub enum Commands {
    /// Start an interactive session, optionally with a first prompt.
    Chat { prompt: Option<String> },
    /// Run a one-shot task (only plan it when `dry_run`).
    Run { task: String, dry_run: bool },
    /// Show memory and system status.
    Status,
    /// Manage stored memories.
    Memory { action: MemoryAction },
    /// Execute a script file, or an inline command when `inline`.
    Exec { script: String, inline: bool },
    /// Self-improvement of a module.
    Improve { module: Option<String> },
    /// JSON exchange over FIFOs.
    Ipc { action: IpcAction },
}

/// Operations on stored memories.
#[derive(Debug)]
pub enum MemoryAction {
    /// Show the most recent interactions.
    List { limit: u32 },
    /// Compact and summarize old memories.
    Compact,
    /// Clear all memories.
    Clear,
}

/// FIFO exchange operations.
#[derive(Debug)]
pub enum IpcAction {
    /// Send a JSON payload to the command FIFO and print the reply.
    Send { fifo: Option<String>, payload: String },
    /// Listen for JSON commands.
    Listen { cmd_fifo: Option<String>, resp_fifo: Option<String> },
}

} // verus!
