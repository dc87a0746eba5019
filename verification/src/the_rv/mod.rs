//! Browser automation through the `drive.sh` helper script.

pub mod driver;
