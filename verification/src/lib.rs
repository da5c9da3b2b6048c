//! Batch driver core for an external file-synchronization tool.
//!
//! The library turns a parsed job document (a generic tree of strings,
//! sequences and mappings) into fully resolved job records, and from each
//! record builds the argument vector and log-header text for one invocation
//! of the external tool. Reading the document from disk, probing the
//! filesystem and spawning the tool are left to the surrounding program;
//! the logic here is pure and fully verified.

pub mod node;
pub mod types;
pub mod job;
pub mod command;
