//! The pseudo-terminal session manager.
//!
//! A session is one shell, the pseudo-terminal it is attached to, and the
//! reader loop that forwards its output. The manager holds at most one of them
//! and replaces it only after it has been torn down completely.

pub mod laws;
pub mod manager;
pub mod reader;
pub mod reap;
pub mod types;
