//! Batch image conversion logic: target-format resolution from the program
//! name, directory-entry planning, the decode/encode pipeline, and run
//! counters.

pub mod convert;
pub mod laws;
pub mod mode;
pub mod paths;
pub mod summary;
pub mod text;
