//! Speech recognition: its settings, its states, and the manager that keeps
//! the two in step with the recognizer that the host drives.

pub mod config;
pub mod manager;
pub mod recognizer;
