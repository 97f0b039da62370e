//! Supervisor for a long-running backend worker process (the sidecar).
//!
//! The library decides whether the worker should be launched, how it is
//! configured, and how its diagnostic output is tagged and relayed. The
//! host application performs the actual process creation and I/O and feeds
//! the outcomes back into the types defined here.

pub mod config;
pub mod multiplexer;
pub mod supervisor;
