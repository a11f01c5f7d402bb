//! What plugins build on: the attachment of a plugin within a session, and
//! what plugin-specific wrappers of a handle share, the background tasks
//! they own and the guarantee that none of them outlives its wrapper.

use crate::cancellation::{abort_task, Triggered};
use crate::error::JaError;
use crate::jaconnection::{ConnectionView, Failed, JaConnection};
use crate::jahandle::JaHandle;
use crate::japrotocol::{JaRequest, JaResponse};
use crate::nsp_registry::EventReceiver;
use tokio::task::AbortHandle;
use vstd::prelude::*;

verus! {

/// `tokio::task::AbortHandle`: the permission to abort one spawned task.
/// The engine keeps such handles and triggers them; it never looks inside.
#[verifier::external_type_specification]
#[verifier::external_body]
pub struct ExAbortHandle(AbortHandle);

/// The abort handles that `records` were made for, in order.
pub open spec fn handles_of(records: Seq<Triggered>) -> Seq<AbortHandle> {
    records.map_values(|record: Triggered| record.handle())
}

/// The records of two runs, one after the other, are made for the handles
/// of the first run followed by those of the second.
pub proof fn lemma_handles_of_concat(first: Seq<Triggered>, second: Seq<Triggered>)
    ensures
        handles_of(first + second) == handles_of(first) + handles_of(second),
{
    assert(handles_of(first + second) =~= handles_of(first) + handles_of(second));
}

/// Triggers every handle of `handles`, first to last, and hands back one
/// record for each, in the same order.
pub fn abort_all(handles: Vec<AbortHandle>) -> (done: Vec<Triggered>)
    ensures
        handles_of(done@) == handles@,
{
    let mut waiting = handles;
    let mut done: Vec<Triggered> = Vec::new();
    while waiting.len() > 0
        invariant
            done@.len() + waiting@.len() == handles@.len(),
            forall|i: int| 0 <= i < done@.len() ==> (#[trigger] done@[i]).handle() == handles@[i],
            forall|i: int|
                0 <= i < waiting@.len() ==> #[trigger] waiting@[i] == handles@[done@.len() + i],
        decreases waiting.len(),
    {
        let handle = waiting.remove(0);
        done.push(abort_task(handle));
    }
    assert(handles_of(done@) =~= handles@);
    done
}

/// The background tasks of a plugin-specific wrapper. A wrapper that
/// spawns tasks hands their abort handles over once, with
/// [`PluginTask::assign_aborts`]; its teardown calls
/// [`PluginTask::abort_plugin`].
pub trait PluginTask {
    /// The abort handles the wrapper owns.
    spec fn tasks(&self) -> Seq<AbortHandle>;

    /// The abort handles the wrapper has triggered so far, in order.
    spec fn triggered(&self) -> Seq<AbortHandle>;

    /// Replaces the handles the wrapper owns by `abort_handles`. Nothing is
    /// triggered by it.
    fn assign_aborts(&mut self, abort_handles: Vec<AbortHandle>)
        ensures
            final(self).tasks() == abort_handles@,
            final(self).triggered() == old(self).triggered(),
    ;

    /// Triggers every handle the wrapper owns, in order, and gives them all
    /// up, so that none is left to be triggered again.
    fn abort_plugin(&mut self)
        ensures
            final(self).triggered() == old(self).triggered() + old(self).tasks(),
            final(self).tasks() == Seq::<AbortHandle>::empty(),
    ;
}

/// The failure, if any, that the response to an attachment within
/// `session_id` ends in: the one the frame stands for; else the one that
/// refuses requests while the connection is not open; else, where no
/// subscriber is admitted because the server issued a handle identifier
/// that is attached already, an unexpected response.
pub open spec fn attach_failure<S>(
    session_id: u64,
    connection: ConnectionView<S>,
    response: JaResponse,
) -> Option<JaError> {
    match response.spec_into_id() {
        Err(error) => Some(error),
        Ok(handle_id) => if connection.refusal() is Some {
            connection.refusal()
        } else if !connection.admits(session_id, handle_id) {
            Some(JaError::UnexpectedResponse)
        } else {
            None
        },
    }
}

/// The connection after the response to an attachment within `session_id`
/// was taken in.
pub open spec fn attach_effect<S>(
    session_id: u64,
    connection: ConnectionView<S>,
    response: JaResponse,
) -> ConnectionView<S> {
    match response.spec_into_id() {
        Ok(handle_id) => connection.subscribe(session_id, handle_id),
        Err(_) => connection,
    }
}

/// What plugins can be attached to: a session.
pub trait Attach {
    /// The session that plugins are attached to.
    spec fn attaches_to(&self) -> u64;

    /// Begins the attachment of a plugin: enrolls the request under
    /// `transaction` and hands back the envelope to send. The response is
    /// read by [`Attach::attached`].
    fn attach<S>(
        &self,
        connection: &mut JaConnection<S>,
        transaction: String,
        sink: S,
        plugin_id: String,
        now: u64,
    ) -> (r: Result<JaRequest, Failed<S>>)
        ensures
            final(connection)@ == old(connection)@.enroll(transaction@, sink, now),
            match r {
                Ok(request) => old(connection)@.rejection(transaction@) is None && request
                    == (JaRequest::Attach {
                    transaction,
                    session_id: self.attaches_to(),
                    plugin: plugin_id,
                }),
                Err(failed) => old(connection)@.rejection(transaction@) == Some(failed.error)
                    && failed.sink == sink,
            },
            old(connection)@.wf() ==> final(connection)@.wf(),
    ;

    /// Completes the attachment of a plugin from the response that settled
    /// the request made by [`Attach::attach`]. On success the new handle is
    /// subscribed under (session, handle), and comes back with the
    /// receiving end of its mailbox.
    fn attached<S>(&self, connection: &mut JaConnection<S>, response: JaResponse) -> (r: Result<
        (JaHandle, EventReceiver),
        JaError,
    >)
        ensures
            final(connection)@ == attach_effect(self.attaches_to(), old(connection)@, response),
            match r {
                Ok((handle, receiver)) => {
                    &&& attach_failure(self.attaches_to(), old(connection)@, response) is None
                    &&& response.spec_into_id() == Ok::<u64, JaError>(handle.spec_id())
                    &&& handle.spec_session_id() == self.attaches_to()
                    &&& receiver.spec_session_id() == self.attaches_to()
                    &&& receiver.spec_handle_id() == handle.spec_id()
                },
                Err(error) => attach_failure(self.attaches_to(), old(connection)@, response)
                    == Some(error),
            },
            old(connection)@.wf() ==> final(connection)@.wf(),
    ;
}

} // verus!
