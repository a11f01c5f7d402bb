//! A handle: one plugin attached within a session, the unit that requests
//! and events are addressed by.

use crate::error::JaError;
use crate::jaconnection::{Failed, JaConnection};
use crate::japrotocol::{EstablishmentProtocol, Expect, JaRequest};
use vstd::prelude::*;

verus! {

/// One attached plugin. A handle is made when the server confirms the
/// attachment and is used up by [`JaHandle::detach`].
#[derive(Debug, PartialEq, Eq)]
pub struct JaHandle {
    id: u64,
    session_id: u64,
}

/// An awaited message that was enrolled: the envelope to send, and what
/// its response is to be read as.
#[derive(Debug, PartialEq)]
pub struct Awaited {
    pub request: JaRequest,
    pub expects: Expect,
}

impl JaHandle {
    pub closed spec fn spec_id(self) -> u64 {
        self.id
    }

    pub closed spec fn spec_session_id(self) -> u64 {
        self.session_id
    }

    /// The plugin message envelope of this handle.
    pub open spec fn spec_message(
        self,
        transaction: String,
        body: serde_json::Value,
        jsep: Option<EstablishmentProtocol>,
    ) -> JaRequest {
        JaRequest::Message {
            transaction,
            session_id: self.spec_session_id(),
            handle_id: self.spec_id(),
            body,
            jsep,
        }
    }

    pub(crate) fn new(session_id: u64, id: u64) -> (handle: JaHandle)
        ensures
            handle.spec_id() == id,
            handle.spec_session_id() == session_id,
    {
        JaHandle { id, session_id }
    }

    /// The identifier the server issued for this handle.
    pub fn id(&self) -> (id: u64)
        ensures
            id == self.spec_id(),
    {
        self.id
    }

    /// The session this handle belongs to.
    pub fn session_id(&self) -> (id: u64)
        ensures
            id == self.spec_session_id(),
    {
        self.session_id
    }

    /// Builds the envelope of a plugin message of this handle.
    pub fn message(
        &self,
        transaction: String,
        body: serde_json::Value,
        jsep: Option<EstablishmentProtocol>,
    ) -> (request: JaRequest)
        ensures
            request == self.spec_message(transaction, body, jsep),
    {
        JaRequest::Message {
            transaction,
            session_id: self.session_id,
            handle_id: self.id,
            body,
            jsep,
        }
    }

    /// A message whose response nobody waits for. Nothing is enrolled: the
    /// response, if one comes, is routed like any other frame that answers
    /// no request. The envelope is refused while the connection is not open.
    pub fn fire_and_forget<S>(
        &self,
        connection: &JaConnection<S>,
        transaction: String,
        body: serde_json::Value,
    ) -> (r: Result<JaRequest, JaError>)
        ensures
            match connection@.refusal() {
                Some(error) => r == Err::<JaRequest, JaError>(error),
                None => r == Ok::<JaRequest, JaError>(self.spec_message(transaction, body, None)),
            },
    {
        match connection.ready() {
            Ok(()) => Ok(self.message(transaction, body, None)),
            Err(error) => Err(error),
        }
    }

    /// Like [`JaHandle::fire_and_forget`], with an establishment protocol
    /// attached to the envelope.
    pub fn fire_and_forget_with_est<S>(
        &self,
        connection: &JaConnection<S>,
        transaction: String,
        body: serde_json::Value,
        protocol: EstablishmentProtocol,
    ) -> (r: Result<JaRequest, JaError>)
        ensures
            match connection@.refusal() {
                Some(error) => r == Err::<JaRequest, JaError>(error),
                None => r == Ok::<JaRequest, JaError>(
                    self.spec_message(transaction, body, Some(protocol)),
                ),
            },
    {
        match connection.ready() {
            Ok(()) => Ok(self.message(transaction, body, Some(protocol))),
            Err(error) => Err(error),
        }
    }

    /// A message whose response is awaited under `transaction` and owed to
    /// `sink`: the part all awaited messages share. What the response is
    /// read as is fixed by the primitive that is built on this.
    pub fn request<S>(
        &self,
        connection: &mut JaConnection<S>,
        transaction: String,
        sink: S,
        body: serde_json::Value,
        jsep: Option<EstablishmentProtocol>,
        now: u64,
    ) -> (r: Result<JaRequest, Failed<S>>)
        ensures
            final(connection)@ == old(connection)@.enroll(transaction@, sink, now),
            match r {
                Ok(request) => old(connection)@.rejection(transaction@) is None && request
                    == self.spec_message(transaction, body, jsep),
                Err(failed) => old(connection)@.rejection(transaction@) == Some(failed.error)
                    && failed.sink == sink,
            },
            old(connection)@.wf() ==> final(connection)@.wf(),
    {
        match connection.enroll(&transaction, sink, now) {
            Ok(()) => Ok(self.message(transaction, body, jsep)),
            Err(failed) => Err(failed),
        }
    }

    /// A message that is answered by an acknowledgement: any other frame
    /// that comes back under its transaction is an error for the caller.
    pub fn send_waiton_ack<S>(
        &self,
        connection: &mut JaConnection<S>,
        transaction: String,
        sink: S,
        body: serde_json::Value,
        now: u64,
    ) -> (r: Result<Awaited, Failed<S>>)
        ensures
            final(connection)@ == old(connection)@.enroll(transaction@, sink, now),
            match r {
                Ok(awaited) => old(connection)@.rejection(transaction@) is None && awaited
                    == (Awaited {
                    request: self.spec_message(transaction, body, None),
                    expects: Expect::Ack,
                }),
                Err(failed) => old(connection)@.rejection(transaction@) == Some(failed.error)
                    && failed.sink == sink,
            },
            old(connection)@.wf() ==> final(connection)@.wf(),
    {
        match self.request(connection, transaction, sink, body, None, now) {
            Ok(request) => Ok(Awaited { request, expects: Expect::Ack }),
            Err(failed) => Err(failed),
        }
    }

    /// A message that is answered by the plugin's data. The caller gives
    /// the data the shape it expects.
    pub fn message_with_result<S>(
        &self,
        connection: &mut JaConnection<S>,
        transaction: String,
        sink: S,
        body: serde_json::Value,
        now: u64,
    ) -> (r: Result<Awaited, Failed<S>>)
        ensures
            final(connection)@ == old(connection)@.enroll(transaction@, sink, now),
            match r {
                Ok(awaited) => old(connection)@.rejection(transaction@) is None && awaited
                    == (Awaited {
                    request: self.spec_message(transaction, body, None),
                    expects: Expect::PluginData,
                }),
                Err(failed) => old(connection)@.rejection(transaction@) == Some(failed.error)
                    && failed.sink == sink,
            },
            old(connection)@.wf() ==> final(connection)@.wf(),
    {
        match self.request(connection, transaction, sink, body, None, now) {
            Ok(request) => Ok(Awaited { request, expects: Expect::PluginData }),
            Err(failed) => Err(failed),
        }
    }

    /// A message that carries an establishment protocol. It is answered by
    /// an acknowledgement; the server's side of the negotiation follows as
    /// an event in the handle's mailbox.
    pub fn message_with_establishment_protocol<S>(
        &self,
        connection: &mut JaConnection<S>,
        transaction: String,
        sink: S,
        body: serde_json::Value,
        protocol: EstablishmentProtocol,
        now: u64,
    ) -> (r: Result<Awaited, Failed<S>>)
        ensures
            final(connection)@ == old(connection)@.enroll(transaction@, sink, now),
            match r {
                Ok(awaited) => old(connection)@.rejection(transaction@) is None && awaited
                    == (Awaited {
                    request: self.spec_message(transaction, body, Some(protocol)),
                    expects: Expect::Ack,
                }),
                Err(failed) => old(connection)@.rejection(transaction@) == Some(failed.error)
                    && failed.sink == sink,
            },
            old(connection)@.wf() ==> final(connection)@.wf(),
    {
        match self.request(connection, transaction, sink, body, Some(protocol), now) {
            Ok(request) => Ok(Awaited { request, expects: Expect::Ack }),
            Err(failed) => Err(failed),
        }
    }

    /// Gives the handle up. Its subscriber is removed, so that an event that
    /// still arrives for it is dropped. Requests in flight stay in flight:
    /// each is settled by its response or its deadline as before.
    pub fn detach<S>(self, connection: &mut JaConnection<S>) -> (removed: bool)
        ensures
            final(connection)@ == old(connection)@.unsubscribe(
                self.spec_session_id(),
                self.spec_id(),
            ),
            final(connection)@.pending == old(connection)@.pending,
            !final(connection)@.registry.contains(self.spec_session_id(), self.spec_id()),
            removed == old(connection)@.registry.contains(self.spec_session_id(), self.spec_id()),
            old(connection)@.wf() ==> final(connection)@.wf(),
    {
        connection.unsubscribe(self.session_id, self.id)
    }
}

} // verus!
