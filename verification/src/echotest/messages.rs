//! What the echo-test plugin is asked.

use crate::japrotocol::{EstablishmentProtocol, Jsep};
use vstd::prelude::*;

verus! {

/// Starts or reconfigures an echo test. A session description, if there is
/// one, travels beside the body, not inside it.
#[derive(Clone, Debug, PartialEq, Eq)]
pub struct EchoTestStartMsg {
    pub audio: bool,
    pub video: bool,
    pub jsep: Option<Jsep>,
}

/// How a start request goes out.
#[derive(Debug, PartialEq, Eq)]
pub enum EchoTestStart {
    /// As a plain message, which nobody waits on.
    Message(EchoTestStartMsg),
    /// As a message with the offer attached, which is acknowledged.
    MessageWithEstablishment(EchoTestStartMsg, EstablishmentProtocol),
}

} // verus!
