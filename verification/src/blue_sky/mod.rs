//! Self-modification: a patch is validated, applied, tested, and rolled
//! back when the tests fail.

pub mod patcher;
