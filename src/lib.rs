//! Load-time process priority adjustment driven by a side-by-side INI file.
//!
//! The library holds the decisions: where the configuration lives, how its
//! values are read, which priority class is applied and which diagnostics are
//! raised. Performing the operating-system calls is left to the caller.

pub mod types;
pub mod priority;
pub mod diagnostics;
pub mod config;
pub mod location;
pub mod logger;
pub mod bootstrap;
