//! The echo-test plugin.

pub mod handle;
pub mod messages;
