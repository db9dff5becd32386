//! Conversation logs of the command-line assistant: what is read out of the
//! entries of a session file once the host has parsed them, and the scripts
//! that start the assistant in a terminal window.

pub mod entry;
pub mod launch;
pub mod order;
pub mod project;
pub mod session;
