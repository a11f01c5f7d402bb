//! The audio-bridge plugin.

pub mod handles;
pub mod messages;
pub mod results;
