//! The frames exchanged with the server: outgoing request envelopes and the
//! closed set of inbound response kinds.

use crate::error::JaError;
use vstd::prelude::*;

verus! {

/// `serde_json::Value`, the structured value that plugin bodies and plugin
/// data are made of. The engine never looks inside one: it only carries it
/// from the caller into an envelope, or from a response to the caller.
#[verifier::external_type_specification]
#[verifier::external_body]
pub struct ExValue(serde_json::Value);

/// Which side of a media negotiation a session description belongs to.
#[derive(Clone, Copy, Debug, PartialEq, Eq)]
pub enum JsepType {
    Offer,
    Answer,
}

/// A session description: its role, the opaque description text, and
/// whether candidates will trickle in afterwards.
#[derive(Clone, Debug, PartialEq, Eq)]
pub struct Jsep {
    pub jsep_type: JsepType,
    pub sdp: String,
    pub trickle: Option<bool>,
}

/// The establishment-protocol payload that may accompany a plugin message.
#[derive(Clone, Debug, PartialEq, Eq)]
pub enum EstablishmentProtocol {
    JSEP(Jsep),
}

/// An outgoing request envelope. Each variant holds exactly the fields the
/// server expects for that verb.
#[derive(Debug, PartialEq)]
pub enum JaRequest {
    Create { transaction: String },
    Attach { transaction: String, session_id: u64, plugin: String },
    KeepAlive { transaction: String, session_id: u64 },
    Message {
        transaction: String,
        session_id: u64,
        handle_id: u64,
        body: serde_json::Value,
        jsep: Option<EstablishmentProtocol>,
    },
}

/// Data that a plugin attached to a response or an event.
#[derive(Debug, PartialEq)]
pub struct PluginData {
    pub plugin: String,
    pub data: serde_json::Value,
}

/// What a success frame carries.
#[derive(Debug, PartialEq)]
pub enum JaSuccessProtocol {
    /// The identifier the server issued for a new session or handle.
    Data { id: u64 },
    /// The plugin's typed answer to a message.
    Plugin { plugin_data: PluginData },
}

/// Events the server raises about a handle on its own account.
#[derive(Clone, Copy, Debug, PartialEq, Eq)]
pub enum GenericEvent {
    Detached,
    Hangup,
    Media,
    Timeout,
    WebrtcUp,
    Slowlink,
    Trickle,
}

/// An asynchronous event addressed to a handle.
#[derive(Debug, PartialEq)]
pub enum JaHandleEvent {
    PluginEvent { plugin_data: PluginData },
    GenericEvent(GenericEvent),
}

/// The closed set of inbound frame kinds.
#[derive(Debug, PartialEq)]
pub enum ResponseType {
    Ack,
    Success(JaSuccessProtocol),
    Error { code: u16, reason: String },
    Event(JaHandleEvent),
}

/// An inbound frame. `sender` is the handle the frame is addressed to. An
/// event that carries an establishment protocol is a media-negotiation event.
#[derive(Debug, PartialEq)]
pub struct JaResponse {
    pub janus: ResponseType,
    pub transaction: Option<String>,
    pub session_id: Option<u64>,
    pub sender: Option<u64>,
    pub establishment_protocol: Option<EstablishmentProtocol>,
}

/// What the caller of an awaited message waits for.
#[derive(Clone, Copy, Debug, PartialEq, Eq)]
pub enum Expect {
    /// An acknowledgement.
    Ack,
    /// The plugin's data.
    PluginData,
}

/// What an awaited message was answered with.
#[derive(Debug, PartialEq)]
pub enum Answer {
    /// The acknowledgement frame.
    Ack(JaResponse),
    /// The plugin's data, still in its structured form.
    PluginData(PluginData),
}

impl JaRequest {
    /// The verb of the envelope, as it goes on the wire.
    pub open spec fn spec_janus(self) -> Seq<char> {
        match self {
            JaRequest::Create { .. } => "create"@,
            JaRequest::Attach { .. } => "attach"@,
            JaRequest::KeepAlive { .. } => "keepalive"@,
            JaRequest::Message { .. } => "message"@,
        }
    }

    /// The transaction identifier the envelope is tagged with.
    pub open spec fn spec_transaction(self) -> String {
        match self {
            JaRequest::Create { transaction } => transaction,
            JaRequest::Attach { transaction, .. } => transaction,
            JaRequest::KeepAlive { transaction, .. } => transaction,
            JaRequest::Message { transaction, .. } => transaction,
        }
    }

    /// The session the envelope is scoped to, if any.
    pub open spec fn spec_session_id(self) -> Option<u64> {
        match self {
            JaRequest::Create { .. } => None,
            JaRequest::Attach { session_id, .. } => Some(session_id),
            JaRequest::KeepAlive { session_id, .. } => Some(session_id),
            JaRequest::Message { session_id, .. } => Some(session_id),
        }
    }

    /// The handle the envelope is scoped to, if any.
    pub open spec fn spec_handle_id(self) -> Option<u64> {
        match self {
            JaRequest::Message { handle_id, .. } => Some(handle_id),
            _ => None,
        }
    }

    pub fn janus(&self) -> (verb: &'static str)
        ensures
            verb@ == self.spec_janus(),
    {
        match self {
            JaRequest::Create { .. } => "create",
            JaRequest::Attach { .. } => "attach",
            JaRequest::KeepAlive { .. } => "keepalive",
            JaRequest::Message { .. } => "message",
        }
    }

    pub fn transaction(&self) -> (transaction: &String)
        ensures
            *transaction == self.spec_transaction(),
    {
        match self {
            JaRequest::Create { transaction } => transaction,
            JaRequest::Attach { transaction, .. } => transaction,
            JaRequest::KeepAlive { transaction, .. } => transaction,
            JaRequest::Message { transaction, .. } => transaction,
        }
    }

    pub fn session_id(&self) -> (id: Option<u64>)
        ensures
            id == self.spec_session_id(),
    {
        match self {
            JaRequest::Create { .. } => None,
            JaRequest::Attach { session_id, .. } => Some(*session_id),
            JaRequest::KeepAlive { session_id, .. } => Some(*session_id),
            JaRequest::Message { session_id, .. } => Some(*session_id),
        }
    }

    pub fn handle_id(&self) -> (id: Option<u64>)
        ensures
            id == self.spec_handle_id(),
    {
        match self {
            JaRequest::Message { handle_id, .. } => Some(*handle_id),
            _ => None,
        }
    }
}

impl JaResponse {
    /// What a caller that waits for an acknowledgement makes of this frame:
    /// an acknowledgement is handed on, an error frame becomes the server's
    /// error, and any other kind is unexpected.
    pub open spec fn spec_into_ack(self) -> Result<JaResponse, JaError> {
        match self.janus {
            ResponseType::Ack => Ok(self),
            ResponseType::Error { code, reason } => Err(JaError::JanusError { code, reason }),
            _ => Err(JaError::UnexpectedResponse),
        }
    }

    /// What a caller that waits for a plugin's answer makes of this frame:
    /// the plugin data of a success frame is handed on, an error frame
    /// becomes the server's error, and any other kind is unexpected.
    pub open spec fn spec_into_plugin_data(self) -> Result<PluginData, JaError> {
        match self.janus {
            ResponseType::Success(JaSuccessProtocol::Plugin { plugin_data }) => Ok(plugin_data),
            ResponseType::Error { code, reason } => Err(JaError::JanusError { code, reason }),
            _ => Err(JaError::UnexpectedResponse),
        }
    }

    /// What a caller that waits for a new session or handle makes of this
    /// frame: the identifier of a success frame is handed on, an error frame
    /// becomes the server's error, and any other kind is unexpected.
    pub open spec fn spec_into_id(self) -> Result<u64, JaError> {
        match self.janus {
            ResponseType::Success(JaSuccessProtocol::Data { id }) => Ok(id),
            ResponseType::Error { code, reason } => Err(JaError::JanusError { code, reason }),
            _ => Err(JaError::UnexpectedResponse),
        }
    }

    pub fn into_ack(self) -> (r: Result<JaResponse, JaError>)
        ensures
            r == self.spec_into_ack(),
    {
        match self.janus {
            ResponseType::Ack => Ok(self),
            ResponseType::Error { code, reason } => Err(JaError::JanusError { code, reason }),
            _ => Err(JaError::UnexpectedResponse),
        }
    }

    pub fn into_plugin_data(self) -> (r: Result<PluginData, JaError>)
        ensures
            r == self.spec_into_plugin_data(),
    {
        match self.janus {
            ResponseType::Success(JaSuccessProtocol::Plugin { plugin_data }) => Ok(plugin_data),
            ResponseType::Error { code, reason } => Err(JaError::JanusError { code, reason }),
            _ => Err(JaError::UnexpectedResponse),
        }
    }

    pub fn into_id(self) -> (r: Result<u64, JaError>)
        ensures
            r == self.spec_into_id(),
    {
        match self.janus {
            ResponseType::Success(JaSuccessProtocol::Data { id }) => Ok(id),
            ResponseType::Error { code, reason } => Err(JaError::JanusError { code, reason }),
            _ => Err(JaError::UnexpectedResponse),
        }
    }

    /// What a caller that expects `expects` makes of this frame.
    pub open spec fn spec_read(self, expects: Expect) -> Result<Answer, JaError> {
        match expects {
            Expect::Ack => match self.spec_into_ack() {
                Ok(ack) => Ok(Answer::Ack(ack)),
                Err(error) => Err(error),
            },
            Expect::PluginData => match self.spec_into_plugin_data() {
                Ok(data) => Ok(Answer::PluginData(data)),
                Err(error) => Err(error),
            },
        }
    }

    /// Reads the frame as the answer to a message that expects `expects`.
    pub fn read(self, expects: Expect) -> (r: Result<Answer, JaError>)
        ensures
            r == self.spec_read(expects),
    {
        match expects {
            Expect::Ack => match self.into_ack() {
                Ok(ack) => Ok(Answer::Ack(ack)),
                Err(error) => Err(error),
            },
            Expect::PluginData => match self.into_plugin_data() {
                Ok(data) => Ok(Answer::PluginData(data)),
                Err(error) => Err(error),
            },
        }
    }

    /// Whether the frame is an event that carries an establishment protocol.
    pub open spec fn spec_is_media_negotiation(self) -> bool {
        self.janus is Event && self.establishment_protocol is Some
    }

    pub fn is_media_negotiation(&self) -> (b: bool)
        ensures
            b == self.spec_is_media_negotiation(),
    {
        match (&self.janus, &self.establishment_protocol) {
            (ResponseType::Event(_), Some(_)) => true,
            _ => false,
        }
    }

    /// The view of the transaction tag, if the frame has one.
    pub open spec fn transaction_view(self) -> Option<Seq<char>> {
        match self.transaction {
            Some(t) => Some(t@),
            None => None,
        }
    }

    /// The (session, handle) pair the frame is addressed to, if it names both.
    pub open spec fn address(self) -> Option<(u64, u64)> {
        match (self.session_id, self.sender) {
            (Some(session_id), Some(handle_id)) => Some((session_id, handle_id)),
            _ => None,
        }
    }
}

} // verus!
