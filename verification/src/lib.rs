//! Decision logic of a desktop terminal companion.
//!
//! The heart of the crate is [`pty`]: the session manager that owns at most one
//! shell attached to a pseudo-terminal, together with the reader loop and the
//! one-shot latch that keeps the shell from being reaped twice. Around it stand
//! the rules of the companion's smaller parts: the sidebar that hides at a
//! screen edge, speech recognition, the logs of the command-line assistant,
//! pasting into other applications, and the list of fonts.
//!
//! The library decides and computes; it opens no file, starts no process and
//! moves no window. The host program performs what was decided and reports
//! back how it went.

pub mod autohide;
pub mod claude_logs;
pub mod fonts;
pub mod paste_to_app;
pub mod pty;
pub mod speech;
pub mod split;
pub mod text;
