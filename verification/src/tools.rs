//! The parts of the bundled file tools that compute: which path a request
//! names, what the tool answers for each thing the file system can report,
//! and how a listing is laid out.

pub mod file;
pub mod grep;
pub mod path;
