//! The names most callers need.

pub use crate::error::JaError;
pub use crate::error::JaResult;
pub use crate::jahandle::JaHandle;
pub use crate::japlugin::Attach;
pub use crate::japlugin::PluginTask;
pub use crate::japrotocol::JaResponse;
pub use crate::jasession::JaSession;
