//! A driver for tool-calling conversations with a language model.
//!
//! The crate keeps the conversation context, a registry of named tools, the
//! classification of a model response, and the two loop policies built on it:
//! stop when a target tool is requested, and stop on free text. Talking to the
//! completion endpoint and touching the file system are left to the caller,
//! who hands the outcomes in as plain values.

pub mod agent;
pub mod error;
pub mod laws;
pub mod message;
pub mod text;
pub mod tool;
pub mod tools;
