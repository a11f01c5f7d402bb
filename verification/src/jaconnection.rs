//! The connection: the state machine that says when requests may be issued,
//! and the single dispatch step that routes every inbound frame.

use crate::error::JaError;
use crate::jaconfig::JaConfig;
use crate::japrotocol::{JaRequest, JaResponse};
use crate::nsp_registry::{EventReceiver, NamespaceRegistry, Received, RegistryView};
use crate::tgenerator::GenerateTransaction;
use crate::tmanager::{PendingView, Resolution, TransactionManager, TransactionsView};
use vstd::prelude::*;

verus! {

/// `Connecting -> Open -> Closed`; there is no way back.
#[derive(Clone, Copy, Debug, PartialEq, Eq)]
pub enum ConnectionState {
    /// The transport has not reported yet that it is connected.
    Connecting,
    /// The transport is connected and the dispatch loop runs.
    Open,
    /// The transport failed or ended, or the connection was shut down.
    Closed,
}

/// A sink together with the failure that is owed to it.
#[derive(Debug, PartialEq)]
pub struct Failed<S> {
    pub error: JaError,
    pub sink: S,
}

/// Why an inbound frame was dropped.
#[derive(Clone, Copy, Debug, PartialEq, Eq)]
pub enum Discard {
    /// The connection is not open.
    NotOpen,
    /// The frame answers no request in flight and does not name both a
    /// session and a handle.
    Unaddressed,
    /// The frame names a (session, handle) pair that has no subscriber.
    UnknownHandle,
}

/// What the dispatch step did with an inbound frame.
#[derive(Debug, PartialEq)]
pub enum Dispatch<S> {
    /// The frame answers a request in flight: it is owed to `sink`.
    Resolved { sink: S, message: JaResponse },
    /// The frame was filed in the mailbox of (session, handle).
    Event { session_id: u64, handle_id: u64 },
    /// The frame was dropped.
    Discarded { message: JaResponse, reason: Discard },
}

/// The connection as contracts see it.
pub struct ConnectionView<S> {
    /// The configuration the connection was made with; no step changes it.
    pub config: JaConfig,
    pub state: ConnectionState,
    pub pending: TransactionsView<S>,
    pub registry: RegistryView,
}

impl<S> ConnectionView<S> {
    /// A connection that waits for its transport.
    pub open spec fn connecting(config: JaConfig) -> Self {
        ConnectionView {
            config,
            state: ConnectionState::Connecting,
            pending: TransactionsView::empty(),
            registry: RegistryView::empty(),
        }
    }

    /// What holds of every connection: both maps are well-formed; requests
    /// are in flight only while the connection is open; subscribers exist
    /// only once it has opened; the registry is closed exactly when the
    /// connection is.
    pub open spec fn wf(self) -> bool {
        &&& self.pending.wf()
        &&& self.registry.wf()
        &&& (self.state is Closed <==> self.registry.closed)
        &&& (self.state !is Open ==> self.pending.entries.len() == 0)
        &&& (self.state is Connecting ==> self.registry.subscriptions.len() == 0)
    }

    /// The failure that a request meets when the connection is not open.
    pub open spec fn refusal(self) -> Option<JaError> {
        match self.state {
            ConnectionState::Connecting => Some(JaError::TransportNotOpened),
            ConnectionState::Open => None,
            ConnectionState::Closed => Some(JaError::ConnectionClosed),
        }
    }

    /// The transport reported that it is connected.
    pub open spec fn open(self) -> Self {
        if self.state is Connecting {
            ConnectionView { state: ConnectionState::Open, ..self }
        } else {
            self
        }
    }

    /// The failures owed when the connection closes: one per request in
    /// flight, oldest first, each a connection-closed error.
    pub open spec fn failures(self) -> Seq<Failed<S>> {
        Seq::new(
            self.pending.entries.len(),
            |i: int| Failed { error: JaError::ConnectionClosed, sink: self.pending.entries[i].sink },
        )
    }

    /// The connection after it closed.
    pub open spec fn close(self) -> Self {
        ConnectionView {
            config: self.config,
            state: ConnectionState::Closed,
            pending: TransactionsView::empty(),
            registry: self.registry.close(),
        }
    }

    /// The failure, if any, that refuses a request awaited under `id`.
    pub open spec fn rejection(self, id: Seq<char>) -> Option<JaError> {
        if self.refusal() is Some {
            self.refusal()
        } else if self.pending.contains(id) {
            Some(JaError::DuplicateTransaction)
        } else {
            None
        }
    }

    /// The connection after a request awaited under `id` was enrolled or refused.
    pub open spec fn enroll(self, id: Seq<char>, sink: S, now: u64) -> Self {
        if self.rejection(id) is None {
            ConnectionView { pending: self.pending.insert(id, sink, now), ..self }
        } else {
            self
        }
    }

    /// What the dispatch step answers for `message`.
    pub open spec fn dispatched(self, message: JaResponse) -> Dispatch<S> {
        if self.state !is Open {
            Dispatch::Discarded { message, reason: Discard::NotOpen }
        } else if self.pending.answers(message) {
            Dispatch::Resolved { sink: self.pending.sink(message.transaction->0@)->0, message }
        } else {
            match message.address() {
                Some((session_id, handle_id)) => {
                    if self.registry.accepts(session_id, handle_id) {
                        Dispatch::Event { session_id, handle_id }
                    } else {
                        Dispatch::Discarded { message, reason: Discard::UnknownHandle }
                    }
                },
                None => Dispatch::Discarded { message, reason: Discard::Unaddressed },
            }
        }
    }

    /// The connection after the dispatch step took `message`.
    pub open spec fn dispatch(self, message: JaResponse) -> Self {
        if self.state !is Open {
            self
        } else if self.pending.answers(message) {
            ConnectionView { pending: self.pending.remove(message.transaction->0@), ..self }
        } else {
            match message.address() {
                Some((session_id, handle_id)) => ConnectionView {
                    registry: self.registry.dispatch(session_id, handle_id, message),
                    ..self
                },
                None => self,
            }
        }
    }

    /// The connection after the dispatch loop took `messages` in order.
    pub open spec fn run(self, messages: Seq<JaResponse>) -> Self
        decreases messages.len(),
    {
        if messages.len() == 0 {
            self
        } else {
            self.run(messages.drop_last()).dispatch(messages.last())
        }
    }

    /// What the dispatch loop answered for each of `messages`, in order.
    pub open spec fn outcomes(self, messages: Seq<JaResponse>) -> Seq<Dispatch<S>>
        decreases messages.len(),
    {
        if messages.len() == 0 {
            Seq::empty()
        } else {
            self.outcomes(messages.drop_last()).push(
                self.run(messages.drop_last()).dispatched(messages.last()),
            )
        }
    }

    /// The failure owed when the deadline of the request awaited under `id` elapses.
    pub open spec fn timed_out(self, id: Seq<char>) -> Option<Failed<S>> {
        match self.pending.sink(id) {
            Some(sink) => Some(Failed { error: JaError::RequestTimeout, sink }),
            None => None,
        }
    }

    /// The connection after that deadline elapsed.
    pub open spec fn timeout(self, id: Seq<char>) -> Self {
        ConnectionView { pending: self.pending.remove(id), ..self }
    }

    /// Whether a subscriber for the pair would be admitted.
    pub open spec fn admits(self, session_id: u64, handle_id: u64) -> bool {
        self.state is Open && self.registry.admits(session_id, handle_id)
    }

    /// The connection after the pair subscribed, where it was admitted.
    pub open spec fn subscribe(self, session_id: u64, handle_id: u64) -> Self {
        if self.admits(session_id, handle_id) {
            ConnectionView { registry: self.registry.register(session_id, handle_id), ..self }
        } else {
            self
        }
    }

    /// The connection after the pair's subscriber, if any, was removed.
    pub open spec fn unsubscribe(self, session_id: u64, handle_id: u64) -> Self {
        ConnectionView { registry: self.registry.unregister(session_id, handle_id), ..self }
    }

    /// The connection after the pair's receiver took its next event.
    pub open spec fn after_recv(self, session_id: u64, handle_id: u64) -> Self {
        ConnectionView { registry: self.registry.after_recv(session_id, handle_id), ..self }
    }
}

/// One step of a connection, as contracts see it. Every operation of
/// [`JaConnection`] that changes it takes one of these steps.
pub enum Step<S> {
    /// `JaConnection::open`.
    Open,
    /// `JaConnection::enroll`, and every request that is awaited.
    Enroll { id: Seq<char>, sink: S, now: u64 },
    /// `JaConnection::dispatch`.
    Dispatch { message: JaResponse },
    /// `JaConnection::timeout`.
    Timeout { id: Seq<char> },
    /// `JaConnection::subscribe`.
    Subscribe { session_id: u64, handle_id: u64 },
    /// `JaConnection::unsubscribe`.
    Unsubscribe { session_id: u64, handle_id: u64 },
    /// `JaConnection::recv`.
    Recv { session_id: u64, handle_id: u64 },
    /// `JaConnection::close`.
    Close,
}

impl<S> ConnectionView<S> {
    /// The connection after one step.
    pub open spec fn step(self, step: Step<S>) -> Self {
        match step {
            Step::Open => self.open(),
            Step::Enroll { id, sink, now } => self.enroll(id, sink, now),
            Step::Dispatch { message } => self.dispatch(message),
            Step::Timeout { id } => self.timeout(id),
            Step::Subscribe { session_id, handle_id } => self.subscribe(session_id, handle_id),
            Step::Unsubscribe { session_id, handle_id } => self.unsubscribe(session_id, handle_id),
            Step::Recv { session_id, handle_id } => self.after_recv(session_id, handle_id),
            Step::Close => self.close(),
        }
    }

    /// The connection after `steps`, taken in order.
    pub open spec fn trace(self, steps: Seq<Step<S>>) -> Self
        decreases steps.len(),
    {
        if steps.len() == 0 {
            self
        } else {
            self.trace(steps.drop_last()).step(steps.last())
        }
    }
}

impl<S> Step<S> {
    /// Whether the step can settle the request awaited under `id`: it is
    /// the dispatch of a frame that carries `id`, the elapse of the
    /// deadline of `id`, or the closing of the connection.
    pub open spec fn settles(self, id: Seq<char>) -> bool {
        match self {
            Step::Dispatch { message } => message.transaction_view() == Some(id),
            Step::Timeout { id: elapsed } => elapsed == id,
            Step::Close => true,
            _ => false,
        }
    }
}

/// One multiplexed link to the server: its state, the requests in flight
/// and the mailboxes of the attached handles. `S` is whatever the caller
/// wants a response delivered to.
pub struct JaConnection<S> {
    config: JaConfig,
    state: ConnectionState,
    tmanager: TransactionManager<S>,
    registry: NamespaceRegistry,
}

impl<S> JaConnection<S> {
    pub closed spec fn view(self) -> ConnectionView<S> {
        ConnectionView {
            config: self.config,
            state: self.state,
            pending: self.tmanager@,
            registry: self.registry@,
        }
    }

    /// A connection that waits for its transport.
    pub fn new(config: JaConfig) -> (connection: Self)
        ensures
            connection@ == ConnectionView::<S>::connecting(config),
            connection@.wf(),
    {
        JaConnection {
            config,
            state: ConnectionState::Connecting,
            tmanager: TransactionManager::new(),
            registry: NamespaceRegistry::new(),
        }
    }

    pub fn config(&self) -> (config: &JaConfig)
        ensures
            *config == self@.config,
    {
        &self.config
    }

    pub fn state(&self) -> (state: ConnectionState)
        ensures
            state == self@.state,
    {
        self.state
    }

    /// The number of requests in flight.
    pub fn in_flight(&self) -> (n: usize)
        ensures
            n == self@.pending.entries.len(),
    {
        self.tmanager.size()
    }

    /// Whether a request is in flight under `transaction`.
    pub fn is_pending(&self, transaction: &String) -> (pending: bool)
        ensures
            pending == self@.pending.contains(transaction@),
    {
        self.tmanager.contains(transaction)
    }

    /// The moment from which the request awaited under `transaction` counts
    /// as late for a caller that waits `timeout` for it.
    pub fn deadline(&self, transaction: &String, timeout: u64) -> (at: Option<u64>)
        ensures
            at == self@.pending.deadline(transaction@, timeout),
    {
        self.tmanager.deadline(transaction, timeout)
    }

    /// Whether the pair has a subscriber.
    pub fn is_attached(&self, session_id: u64, handle_id: u64) -> (attached: bool)
        ensures
            attached == self@.registry.contains(session_id, handle_id),
    {
        self.registry.is_registered(session_id, handle_id)
    }

    /// The transport reported that it is connected. A connection that has
    /// closed stays closed.
    pub fn open(&mut self) -> (r: Result<(), JaError>)
        ensures
            final(self)@ == old(self)@.open(),
            r is Ok <==> old(self)@.state !is Closed,
            r is Err ==> r == Err::<(), JaError>(JaError::ConnectionClosed),
            old(self)@.wf() ==> final(self)@.wf(),
    {
        match self.state {
            ConnectionState::Connecting => {
                self.state = ConnectionState::Open;
                Ok(())
            },
            ConnectionState::Open => Ok(()),
            ConnectionState::Closed => Err(JaError::ConnectionClosed),
        }
    }

    /// Says whether a request may be issued now, and if not, why.
    pub fn ready(&self) -> (r: Result<(), JaError>)
        ensures
            match r {
                Ok(()) => self@.refusal() is None,
                Err(e) => self@.refusal() == Some(e),
            },
    {
        match self.state {
            ConnectionState::Connecting => Err(JaError::TransportNotOpened),
            ConnectionState::Open => Ok(()),
            ConnectionState::Closed => Err(JaError::ConnectionClosed),
        }
    }

    /// Passes a candidate for a transaction identifier: it comes back if
    /// and only if no request is in flight under it.
    pub fn vet_transaction(&self, candidate: String) -> (transaction: Option<String>)
        ensures
            transaction == if self@.pending.contains(candidate@) {
                None
            } else {
                Some(candidate)
            },
    {
        if self.tmanager.contains(&candidate) {
            None
        } else {
            Some(candidate)
        }
    }

    /// Asks `generator` for a transaction identifier and passes it through
    /// [`JaConnection::vet_transaction`]: what comes back is what the
    /// generator made, if no request is in flight under it, and nothing
    /// otherwise. While no request is in flight at all, every identifier is
    /// free, so one always comes back.
    pub fn fresh_transaction<G: GenerateTransaction>(&self, generator: &G) -> (transaction: Option<
        String,
    >)
        ensures
            exists|candidate: String|
                call_ensures(G::generate_transaction, (generator,), candidate) && transaction
                    == if self@.pending.contains(candidate@) {
                    None
                } else {
                    Some(candidate)
                },
            transaction matches Some(t) ==> !self@.pending.contains(t@),
            self@.pending.entries.len() == 0 ==> transaction is Some,
    {
        let candidate = generator.generate_transaction();
        let ghost made = candidate;
        let transaction = self.vet_transaction(candidate);
        assert(call_ensures(G::generate_transaction, (generator,), made) && transaction
            == if self@.pending.contains(made@) {
            None
        } else {
            Some(made)
        });
        transaction
    }

    /// Enrolls a request that will be awaited under `transaction`: from now
    /// on the response that carries this identifier is owed to `sink`. The
    /// request is refused, and the sink handed back with the reason, while
    /// the connection is not open or while the identifier is in flight.
    pub fn enroll(&mut self, transaction: &String, sink: S, now: u64) -> (r: Result<(), Failed<S>>)
        ensures
            final(self)@ == old(self)@.enroll(transaction@, sink, now),
            match r {
                Ok(()) => old(self)@.rejection(transaction@) is None,
                Err(failed) => old(self)@.rejection(transaction@) == Some(failed.error)
                    && failed.sink == sink,
            },
            old(self)@.wf() ==> final(self)@.wf(),
    {
        match self.ready() {
            Err(error) => Err(Failed { error, sink }),
            Ok(()) => match self.tmanager.insert(transaction.clone(), sink, now) {
                Ok(()) => Ok(()),
                Err(sink) => Err(Failed { error: JaError::DuplicateTransaction, sink }),
            },
        }
    }

    /// Begins the creation of a session: enrolls the request under
    /// `transaction` and hands back the envelope to send.
    pub fn create_session(&mut self, transaction: String, sink: S, now: u64) -> (r: Result<
        JaRequest,
        Failed<S>,
    >)
        ensures
            final(self)@ == old(self)@.enroll(transaction@, sink, now),
            match r {
                Ok(request) => old(self)@.rejection(transaction@) is None && request
                    == (JaRequest::Create { transaction }),
                Err(failed) => old(self)@.rejection(transaction@) == Some(failed.error)
                    && failed.sink == sink,
            },
            old(self)@.wf() ==> final(self)@.wf(),
    {
        match self.enroll(&transaction, sink, now) {
            Ok(()) => Ok(JaRequest::Create { transaction }),
            Err(failed) => Err(failed),
        }
    }

    /// The dispatch step, taken once for every inbound frame in arrival
    /// order. A frame that answers a request in flight settles that request;
    /// any other frame that names a session and a handle is filed in that
    /// handle's mailbox; a frame that fits neither is dropped. Dropping a
    /// frame is never an error of the connection.
    pub fn dispatch(&mut self, message: JaResponse) -> (outcome: Dispatch<S>)
        ensures
            outcome == old(self)@.dispatched(message),
            final(self)@ == old(self)@.dispatch(message),
            old(self)@.wf() ==> final(self)@.wf(),
    {
        match self.state {
            ConnectionState::Open => {},
            _ => {
                return Dispatch::Discarded { message, reason: Discard::NotOpen };
            },
        }
        match self.tmanager.resolve(message) {
            Resolution::Delivered { sink, message } => Dispatch::Resolved { sink, message },
            Resolution::Unmatched(message) => match (message.session_id, message.sender) {
                (Some(session_id), Some(handle_id)) => match self.registry.dispatch(
                    session_id,
                    handle_id,
                    message,
                ) {
                    Ok(()) => Dispatch::Event { session_id, handle_id },
                    Err(message) => Dispatch::Discarded { message, reason: Discard::UnknownHandle },
                },
                _ => Dispatch::Discarded { message, reason: Discard::Unaddressed },
            },
        }
    }

    /// The deadline of the request awaited under `transaction` elapsed. If
    /// the request is still in flight it is taken out, and its sink comes
    /// back with the timeout it is owed; a response that arrives later finds
    /// no request to answer. If a response got there first, nothing comes
    /// back: the request was settled and is not reported as timed out.
    pub fn timeout(&mut self, transaction: &String) -> (failed: Option<Failed<S>>)
        ensures
            failed == old(self)@.timed_out(transaction@),
            final(self)@ == old(self)@.timeout(transaction@),
            !final(self)@.pending.contains(transaction@),
            old(self)@.wf() ==> final(self)@.wf(),
    {
        match self.tmanager.expire(transaction) {
            Some(sink) => Some(Failed { error: JaError::RequestTimeout, sink }),
            None => None,
        }
    }

    /// Closes the connection, on a transport failure, at the end of the
    /// inbound stream, or on shutdown. Every request in flight is taken out
    /// and comes back with the connection-closed error it is owed, and the
    /// registry is closed, so that every receiver reaches the end of its
    /// stream.
    pub fn close(&mut self) -> (failures: Vec<Failed<S>>)
        ensures
            failures@ == old(self)@.failures(),
            final(self)@ == old(self)@.close(),
            old(self)@.wf() ==> final(self)@.wf(),
    {
        self.state = ConnectionState::Closed;
        self.registry.close();
        let mut sinks = self.tmanager.fail_all();
        let mut failures: Vec<Failed<S>> = Vec::new();
        let ghost all = sinks@;
        while sinks.len() > 0
            invariant
                failures@.len() + sinks@.len() == all.len(),
                forall|i: int|
                    0 <= i < failures@.len() ==> failures@[i] == (Failed {
                        error: JaError::ConnectionClosed,
                        sink: all[i],
                    }),
                forall|i: int| 0 <= i < sinks@.len() ==> sinks@[i] == all[failures@.len() + i],
            decreases sinks.len(),
        {
            let sink = sinks.remove(0);
            failures.push(Failed { error: JaError::ConnectionClosed, sink });
        }
        assert(failures@ =~= old(self)@.failures());
        failures
    }

    /// Subscribes the pair and hands out the receiving end of its mailbox.
    /// Nobody is admitted unless the connection is open, and a pair that is
    /// subscribed keeps its subscriber.
    pub fn subscribe(&mut self, session_id: u64, handle_id: u64) -> (receiver: Option<
        EventReceiver,
    >)
        ensures
            final(self)@ == old(self)@.subscribe(session_id, handle_id),
            receiver is Some == old(self)@.admits(session_id, handle_id),
            receiver matches Some(r) ==> r.spec_session_id() == session_id && r.spec_handle_id()
                == handle_id,
            old(self)@.wf() ==> final(self)@.wf(),
    {
        match self.state {
            ConnectionState::Open => self.registry.register(session_id, handle_id),
            _ => None,
        }
    }

    /// Removes the pair's subscriber. Requests in flight are not touched.
    pub fn unsubscribe(&mut self, session_id: u64, handle_id: u64) -> (removed: bool)
        ensures
            final(self)@ == old(self)@.unsubscribe(session_id, handle_id),
            removed == old(self)@.registry.contains(session_id, handle_id),
            !final(self)@.registry.contains(session_id, handle_id),
            old(self)@.wf() ==> final(self)@.wf(),
    {
        self.registry.unregister(session_id, handle_id)
    }

    /// Takes the oldest waiting event out of the receiver's mailbox.
    pub fn recv(&mut self, receiver: &EventReceiver) -> (r: Received)
        ensures
            r == old(self)@.registry.received(receiver.spec_session_id(), receiver.spec_handle_id()),
            final(self)@ == old(self)@.after_recv(
                receiver.spec_session_id(),
                receiver.spec_handle_id(),
            ),
            old(self)@.wf() ==> final(self)@.wf(),
    {
        self.registry.recv(receiver)
    }
}

} // verus!
