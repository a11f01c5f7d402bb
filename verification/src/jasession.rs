//! A session: the server-side context that handles are attached to, kept
//! alive by a request on every tick of its keepalive schedule.

use crate::error::JaError;
use crate::jaconnection::{Failed, JaConnection};
use crate::jahandle::JaHandle;
use crate::japlugin::Attach;
use crate::japrotocol::{JaRequest, JaResponse};
use crate::nsp_registry::EventReceiver;
use vstd::prelude::*;

verus! {

/// Milliseconds in a second: keepalive intervals are given in seconds, the
/// clock in milliseconds.
pub const MILLIS_PER_SECOND: u64 = 1000;

/// `a + b`, or the largest value if the sum does not fit.
pub open spec fn saturating_sum(a: u64, b: u64) -> u64 {
    if a + b > u64::MAX {
        u64::MAX
    } else {
        (a + b) as u64
    }
}

/// One server-side session. The identifier is the one the server issued
/// and never changes.
#[derive(Debug, PartialEq, Eq)]
pub struct JaSession {
    id: u64,
    ka_interval: u32,
    next_keepalive: u64,
}

impl JaSession {
    pub closed spec fn spec_id(self) -> u64 {
        self.id
    }

    /// The keepalive interval, in seconds.
    pub closed spec fn spec_ka_interval(self) -> u32 {
        self.ka_interval
    }

    /// When the next keepalive is due, in milliseconds.
    pub closed spec fn spec_next_keepalive(self) -> u64 {
        self.next_keepalive
    }

    /// What becomes of the response to a session creation: a session for
    /// the identifier in a success frame, whose first keepalive is due at
    /// once; otherwise the failure the frame stands for.
    pub open spec fn spec_established(response: JaResponse, ka_interval: u32, now: u64) -> Result<
        (u64, u32, u64),
        JaError,
    > {
        match response.spec_into_id() {
            Ok(id) => Ok((id, ka_interval, now)),
            Err(error) => Err(error),
        }
    }

    /// Completes the creation of a session from the response that settled
    /// the request made by `JaConnection::create_session`.
    pub fn established(response: JaResponse, ka_interval: u32, now: u64) -> (r: Result<
        JaSession,
        JaError,
    >)
        ensures
            match r {
                Ok(session) => Self::spec_established(response, ka_interval, now) == Ok::<
                    (u64, u32, u64),
                    JaError,
                >(
                    (
                        session.spec_id(),
                        session.spec_ka_interval(),
                        session.spec_next_keepalive(),
                    ),
                ),
                Err(error) => Self::spec_established(response, ka_interval, now) == Err::<
                    (u64, u32, u64),
                    JaError,
                >(error),
            },
    {
        match response.into_id() {
            Ok(id) => Ok(JaSession { id, ka_interval, next_keepalive: now }),
            Err(error) => Err(error),
        }
    }

    /// The identifier the server issued for this session.
    pub fn id(&self) -> (id: u64)
        ensures
            id == self.spec_id(),
    {
        self.id
    }

    /// The keepalive interval, in seconds.
    pub fn ka_interval(&self) -> (seconds: u32)
        ensures
            seconds == self.spec_ka_interval(),
    {
        self.ka_interval
    }

    /// When the next keepalive is due, in milliseconds.
    pub fn next_keepalive(&self) -> (at: u64)
        ensures
            at == self.spec_next_keepalive(),
    {
        self.next_keepalive
    }

    /// One look at the clock by the keepalive schedule. Says whether a
    /// keepalive is due at `now`; if it is, the next one falls due one
    /// interval after this one was.
    pub fn tick(&mut self, now: u64) -> (due: bool)
        ensures
            due == (now >= old(self).spec_next_keepalive()),
            final(self).spec_id() == old(self).spec_id(),
            final(self).spec_ka_interval() == old(self).spec_ka_interval(),
            final(self).spec_next_keepalive() == if due {
                saturating_sum(
                    old(self).spec_next_keepalive(),
                    (old(self).spec_ka_interval() * MILLIS_PER_SECOND) as u64,
                )
            } else {
                old(self).spec_next_keepalive()
            },
    {
        if now >= self.next_keepalive {
            let interval: u64 = self.ka_interval as u64 * MILLIS_PER_SECOND;
            self.next_keepalive = self.next_keepalive.saturating_add(interval);
            true
        } else {
            false
        }
    }

    /// The keepalive request of this session. Nobody waits for its
    /// response, so nothing is enrolled. It is refused while the connection
    /// is not open.
    pub fn keepalive<S>(&self, connection: &JaConnection<S>, transaction: String) -> (r: Result<
        JaRequest,
        JaError,
    >)
        ensures
            match connection@.refusal() {
                Some(error) => r == Err::<JaRequest, JaError>(error),
                None => r == Ok::<JaRequest, JaError>(
                    JaRequest::KeepAlive { transaction, session_id: self.spec_id() },
                ),
            },
    {
        match connection.ready() {
            Ok(()) => Ok(JaRequest::KeepAlive { transaction, session_id: self.id }),
            Err(error) => Err(error),
        }
    }
}

impl Attach for JaSession {
    open spec fn attaches_to(&self) -> u64 {
        self.spec_id()
    }

    fn attach<S>(
        &self,
        connection: &mut JaConnection<S>,
        transaction: String,
        sink: S,
        plugin_id: String,
        now: u64,
    ) -> (r: Result<JaRequest, Failed<S>>) {
        match connection.enroll(&transaction, sink, now) {
            Ok(()) => Ok(JaRequest::Attach { transaction, session_id: self.id, plugin: plugin_id }),
            Err(failed) => Err(failed),
        }
    }

    fn attached<S>(&self, connection: &mut JaConnection<S>, response: JaResponse) -> (r: Result<
        (JaHandle, EventReceiver),
        JaError,
    >) {
        match response.into_id() {
            Err(error) => Err(error),
            Ok(handle_id) => match connection.subscribe(self.id, handle_id) {
                Some(receiver) => Ok((JaHandle::new(self.id, handle_id), receiver)),
                None => match connection.ready() {
                    Err(error) => Err(error),
                    Ok(()) => Err(JaError::UnexpectedResponse),
                },
            },
        }
    }
}

} // verus!
