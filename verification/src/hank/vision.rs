//! Where screen captures are written.

use crate::text::{owned, push_signed_decimal, push_str, signed_decimal};
use vstd::prelude::*;

verus! {

/// Takes screenshots into a work directory.
pub struct ScreenObserver {
    pub work_dir: String,
}

/// The file name of a capture taken at `timestamp` (seconds since the epoch).
pub open spec fn capture_name(timestamp: i64) -> Seq<char> {
    "capture_"@ + signed_decimal(timestamp as int) + ".png"@
}

impl ScreenObserver {
    /// An observer writing into `work_dir`.
    pub fn new(work_dir: &str) -> (o: ScreenObserver)
        ensures
            o.work_dir@ == work_dir@,
    {
        ScreenObserver { work_dir: owned(work_dir) }
    }

    /// The file name for a capture taken at `timestamp`, such as
    /// `capture_1700000000.png`.
    pub fn capture_file_name(timestamp: i64) -> (s: String)
        ensures
            s@ == capture_name(timestamp),
    {
        let mut s = owned("capture_");
        push_signed_decimal(&mut s, timestamp);
        push_str(&mut s, ".png");
        s
    }
}

} // verus!
