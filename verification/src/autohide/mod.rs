//! The sidebar that slides out of sight at a screen edge and leaves a handle.

pub mod config;
pub mod manager;
pub mod window_controller;
