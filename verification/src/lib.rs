//! Verified core of a file-scanning service: the scan lifecycle model, the
//! rules by which background workers claim and release work, the hashing
//! of uploaded files, and small utilities for time, identifiers and tokens.

pub mod background;
pub mod file_scan_model;
pub mod queue_item;
pub mod text;
pub mod util;
