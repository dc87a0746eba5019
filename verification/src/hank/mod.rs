//! Screen capture.

pub mod vision;
