//! A small command-line utility's core: accept a single file path,
//! decide from the filesystem check whether to report the path as absent
//! or to open it, and decide from the open attempt how the process ends.

pub mod args;
pub mod flow;
pub mod message;
