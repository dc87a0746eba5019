//! Heisenberg: the verified core of a local agent runtime.

pub mod text;
pub mod the_lab;
pub mod mike;
pub mod saul;
pub mod jesse;
pub mod heisenberg;
pub mod blue_sky;
pub mod the_rv;
pub mod hank;
