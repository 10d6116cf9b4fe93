//! The media player of a desktop with a message bus.
pub mod clock;
pub mod laws;
pub mod mpris;
pub mod names;
pub mod player;
pub mod properties;
pub mod session;
pub mod state;
