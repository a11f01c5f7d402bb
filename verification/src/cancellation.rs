//! The record that a task was asked to stop. A record holds the abort
//! handle it was made for, and this module alone can make one: it makes it
//! in the act of triggering the handle.

use tokio::task::AbortHandle;
use vstd::prelude::*;

verus! {

/// An abort handle that has been triggered.
#[derive(Debug)]
pub struct Triggered {
    handle: AbortHandle,
}

impl Triggered {
    /// The abort handle that was triggered.
    pub closed spec fn handle(self) -> AbortHandle {
        self.handle
    }
}

/// `tokio::task::AbortHandle::abort`: asks the runtime to cancel the task
/// the handle stands for; a task that has finished or was cancelled before
/// is left as it is. The call returns nothing, so all that is claimed is
/// that the record holds the handle that was passed in.
#[verifier::external_body]
pub(crate) fn abort_task(handle: AbortHandle) -> (done: Triggered)
    ensures
        done.handle() == handle,
{
    handle.abort();
    Triggered { handle }
}

} // verus!
