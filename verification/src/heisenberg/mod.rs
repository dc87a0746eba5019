//! The agent's decisions: reading tool requests from replies and commands
//! from the prompt, and bounding each turn.

pub mod actions;
pub mod repl;
pub mod turn;
