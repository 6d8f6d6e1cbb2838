//! Keeps local mirrors of package repositories in step with their upstream
//! and reports what changed.
//!
//! The library holds the decisions; talking to the version-control engine,
//! the package registry, the file system and the terminal is left to the
//! program around it, which performs the actions the library asks for and
//! hands back what happened.

pub mod checker;
pub mod cloning;
pub mod command;
pub mod fetch;
pub mod order;
pub mod pull;
pub mod report;
pub mod revision;
pub mod search;
pub mod style;
pub mod text;
pub mod update_info;
