//! A build wrapper's core: decoding the build tool's structured message
//! stream, color handling per destination, the error log's lifecycle and the
//! decisions taken while a build runs.

pub mod ansi;
pub mod config;
pub mod text;
pub mod json;
pub mod diagnostics;
pub mod term;
pub mod logging;
pub mod runner;
pub mod util;
