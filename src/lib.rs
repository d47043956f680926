//! Orchestration logic for building every scheme of a workspace: reading the
//! scheme listing, selecting schemes by prefix, naming log files, detecting
//! success and rendering per-scheme status lines.

pub mod text;
pub mod listing;
pub mod selection;
pub mod invocation;
pub mod outcome;
pub mod logs;
pub mod report;
