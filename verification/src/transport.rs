//! The transport as the engine sees it: a source of events. Connecting,
//! sending and receiving are the driver's work; what each event does to the
//! connection is decided here.

use crate::jaconnection::{ConnectionView, Dispatch, Failed, JaConnection};
use crate::japrotocol::JaResponse;
use vstd::prelude::*;

verus! {

/// What a transport reports.
#[derive(Debug, PartialEq)]
pub enum TransportEvent {
    /// The transport is connected.
    Connected,
    /// An inbound frame.
    Message(JaResponse),
    /// Inbound data that is no frame.
    Malformed,
    /// The transport failed.
    Failed,
    /// The inbound stream ended.
    Ended,
}

/// What the connection did about a transport event.
#[derive(Debug, PartialEq)]
pub enum Reaction<S> {
    /// The connection opened.
    Opened,
    /// A frame went through the dispatch step.
    Routed(Dispatch<S>),
    /// Nothing changed.
    Ignored,
    /// The connection closed; these failures are owed.
    Terminated(Vec<Failed<S>>),
}

impl<S> ConnectionView<S> {
    /// The connection after the transport reported `event`.
    pub open spec fn after(self, event: TransportEvent) -> Self {
        match event {
            TransportEvent::Connected => self.open(),
            TransportEvent::Message(message) => self.dispatch(message),
            TransportEvent::Malformed => self,
            TransportEvent::Failed => self.close(),
            TransportEvent::Ended => self.close(),
        }
    }
}

impl<S> JaConnection<S> {
    /// Takes one event of the transport. The transport reporting that it is
    /// connected opens a connection that was waiting for it. A frame goes
    /// through the dispatch step. Data that is no frame is passed over: it
    /// neither fails nor ends the connection. A failure of the transport or
    /// the end of its inbound stream closes the connection.
    pub fn on_transport_event(&mut self, event: TransportEvent) -> (reaction: Reaction<S>)
        ensures
            final(self)@ == old(self)@.after(event),
            match event {
                TransportEvent::Connected => reaction == if old(self)@.state is Connecting {
                    Reaction::<S>::Opened
                } else {
                    Reaction::<S>::Ignored
                },
                TransportEvent::Message(message) => reaction == Reaction::Routed(
                    old(self)@.dispatched(message),
                ),
                TransportEvent::Malformed => reaction == Reaction::<S>::Ignored,
                TransportEvent::Failed | TransportEvent::Ended => reaction matches Reaction::Terminated(
                    failures,
                ) && failures@ == old(self)@.failures(),
            },
            old(self)@.wf() ==> final(self)@.wf(),
    {
        match event {
            TransportEvent::Connected => {
                let was_connecting = match self.state() {
                    crate::jaconnection::ConnectionState::Connecting => true,
                    _ => false,
                };
                let _ = self.open();
                if was_connecting {
                    Reaction::Opened
                } else {
                    Reaction::Ignored
                }
            },
            TransportEvent::Message(message) => Reaction::Routed(self.dispatch(message)),
            TransportEvent::Malformed => Reaction::Ignored,
            TransportEvent::Failed => Reaction::Terminated(self.close()),
            TransportEvent::Ended => Reaction::Terminated(self.close()),
        }
    }
}

} // verus!
