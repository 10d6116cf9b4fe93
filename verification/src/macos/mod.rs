//! The media player of macOS.
pub mod controls;
pub mod laws;
pub mod operations;
pub mod player;
pub mod state;
