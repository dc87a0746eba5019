//! Script execution: screening, output capture and results.

pub mod output;
pub mod runner;
pub mod sandbox;
