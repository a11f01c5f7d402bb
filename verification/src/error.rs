//! Failures of the signalling engine and their classification.

use vstd::prelude::*;

verus! {

/// The four families every failure of the library belongs to.
#[derive(Clone, Copy, Debug, PartialEq, Eq)]
pub enum ErrorKind {
    /// The link to the server could not be used: it never opened, failed, or was closed.
    Transport,
    /// No response arrived within the caller's deadline.
    Timeout,
    /// The server answered with an error frame, or with a frame of the wrong shape.
    Protocol,
    /// The caller's request was malformed and was rejected before anything was sent.
    InvalidRequest,
}

/// Everything that can go wrong in a public operation.
#[derive(Clone, Debug, PartialEq, Eq)]
pub enum JaError {
    /// A request was issued before the transport reported that it is connected.
    TransportNotOpened,
    /// The connection was closed while the request was outstanding, or before it was issued.
    ConnectionClosed,
    /// The caller's deadline elapsed before a matching response arrived.
    RequestTimeout,
    /// The server replied with an error frame.
    JanusError { code: u16, reason: String },
    /// The response was of a kind that the request does not admit.
    UnexpectedResponse,
    /// The request was malformed; it never reached the transport.
    InvalidJanusRequest { reason: String },
    /// The transaction identifier already labels a request that is in flight.
    DuplicateTransaction,
}

pub type JaResult<T> = Result<T, JaError>;

impl JaError {
    /// The family of this failure.
    pub open spec fn spec_kind(self) -> ErrorKind {
        match self {
            JaError::TransportNotOpened => ErrorKind::Transport,
            JaError::ConnectionClosed => ErrorKind::Transport,
            JaError::RequestTimeout => ErrorKind::Timeout,
            JaError::JanusError { .. } => ErrorKind::Protocol,
            JaError::UnexpectedResponse => ErrorKind::Protocol,
            JaError::InvalidJanusRequest { .. } => ErrorKind::InvalidRequest,
            JaError::DuplicateTransaction => ErrorKind::InvalidRequest,
        }
    }

    /// Classifies the failure.
    pub fn kind(&self) -> (kind: ErrorKind)
        ensures
            kind == self.spec_kind(),
    {
        match self {
            JaError::TransportNotOpened => ErrorKind::Transport,
            JaError::ConnectionClosed => ErrorKind::Transport,
            JaError::RequestTimeout => ErrorKind::Timeout,
            JaError::JanusError { .. } => ErrorKind::Protocol,
            JaError::UnexpectedResponse => ErrorKind::Protocol,
            JaError::InvalidJanusRequest { .. } => ErrorKind::InvalidRequest,
            JaError::DuplicateTransaction => ErrorKind::InvalidRequest,
        }
    }
}

} // verus!
