//! The media player of Windows.
pub mod controls;
pub mod laws;
pub mod player;
pub mod time;
