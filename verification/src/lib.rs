//! The media player that an application shows to the media service of its operating system.
pub mod arithmetic;
pub mod conversion;
pub mod double;
pub mod linux;
pub mod listeners;
pub mod macos;
pub mod numbers;
pub mod rounding;
pub mod span;
pub mod text;
pub mod types;
pub mod windows;
