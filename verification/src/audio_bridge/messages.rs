//! What the audio-bridge plugin is asked.

use crate::japrotocol::EstablishmentProtocol;
use vstd::prelude::*;

verus! {

/// What to do with the list of tokens that may join a room.
#[derive(Clone, Copy, Debug, PartialEq, Eq)]
pub enum AudioBridgeAction {
    Enable,
    Disable,
    Add,
    Remove,
}

/// How a new room is configured. What is left out is the server's default.
#[derive(Clone, Debug, PartialEq, Eq)]
pub struct AudioBridgeCreateOptions {
    /// The number of the room; the server picks one where there is none.
    pub room: Option<u64>,
    pub permanent: Option<bool>,
    pub description: Option<String>,
    pub secret: Option<String>,
    pub pin: Option<String>,
    pub is_private: Option<bool>,
    pub allowed: Option<Vec<String>>,
}

impl AudioBridgeCreateOptions {
    /// The options that leave everything to the server.
    pub open spec fn spec_default() -> Self {
        AudioBridgeCreateOptions {
            room: None,
            permanent: None,
            description: None,
            secret: None,
            pin: None,
            is_private: None,
            allowed: None,
        }
    }
}

impl Default for AudioBridgeCreateOptions {
    fn default() -> (options: Self)
        ensures
            options == Self::spec_default(),
    {
        AudioBridgeCreateOptions {
            room: None,
            permanent: None,
            description: None,
            secret: None,
            pin: None,
            is_private: None,
            allowed: None,
        }
    }
}

#[derive(Clone, Debug, PartialEq, Eq)]
pub struct AudioBridgeCreateMsg {
    pub options: AudioBridgeCreateOptions,
}

impl AudioBridgeCreateMsg {
    pub fn new(options: AudioBridgeCreateOptions) -> (msg: Self)
        ensures
            msg == (AudioBridgeCreateMsg { options }),
    {
        AudioBridgeCreateMsg { options }
    }
}

#[derive(Clone, Debug, PartialEq, Eq)]
pub struct AudioBridgeEditOptions {
    pub secret: Option<String>,
    pub new_description: Option<String>,
    pub new_secret: Option<String>,
    pub new_pin: Option<String>,
    pub new_is_private: Option<bool>,
    pub permanent: Option<bool>,
}

#[derive(Clone, Debug, PartialEq, Eq)]
pub struct AudioBridgeEditMsg {
    pub room: u64,
    pub options: AudioBridgeEditOptions,
}

impl AudioBridgeEditMsg {
    pub fn new(room: u64, options: AudioBridgeEditOptions) -> (msg: Self)
        ensures
            msg == (AudioBridgeEditMsg { room, options }),
    {
        AudioBridgeEditMsg { room, options }
    }
}

#[derive(Clone, Debug, PartialEq, Eq)]
pub struct AudioBridgeDestroyOptions {
    pub secret: Option<String>,
    pub permanent: Option<bool>,
}

#[derive(Clone, Debug, PartialEq, Eq)]
pub struct AudioBridgeDestroyMsg {
    pub room: u64,
    pub options: AudioBridgeDestroyOptions,
}

impl AudioBridgeDestroyMsg {
    pub fn new(room: u64, options: AudioBridgeDestroyOptions) -> (msg: Self)
        ensures
            msg == (AudioBridgeDestroyMsg { room, options }),
    {
        AudioBridgeDestroyMsg { room, options }
    }
}

#[derive(Clone, Debug, PartialEq, Eq)]
pub struct AudioBridgeJoinOptions {
    pub id: Option<u64>,
    pub pin: Option<String>,
    pub display: Option<String>,
    pub token: Option<String>,
    pub muted: Option<bool>,
}

#[derive(Clone, Debug, PartialEq, Eq)]
pub struct AudioBridgeJoinMsg {
    pub room: u64,
    pub options: AudioBridgeJoinOptions,
}

impl AudioBridgeJoinMsg {
    pub fn new(room: u64, options: AudioBridgeJoinOptions) -> (msg: Self)
        ensures
            msg == (AudioBridgeJoinMsg { room, options }),
    {
        AudioBridgeJoinMsg { room, options }
    }
}

/// How a join request goes out.
#[derive(Debug, PartialEq, Eq)]
pub enum AudioBridgeJoin {
    /// As a message that is acknowledged.
    MessageWithAck(AudioBridgeJoinMsg),
    /// As a message with an establishment protocol attached, which is
    /// acknowledged as well.
    MessageWithEstablishment(AudioBridgeJoinMsg, EstablishmentProtocol),
}

#[derive(Clone, Copy, Debug, PartialEq, Eq)]
pub struct AudioBridgeListMsg {}

impl Default for AudioBridgeListMsg {
    fn default() -> (msg: Self)
        ensures
            msg == (AudioBridgeListMsg {  }),
    {
        AudioBridgeListMsg {  }
    }
}

#[derive(Clone, Debug, PartialEq, Eq)]
pub struct AudioBridgeAllowedOptions {
    pub secret: Option<String>,
}

#[derive(Clone, Debug, PartialEq, Eq)]
pub struct AudioBridgeAllowedMsg {
    pub room: u64,
    pub action: AudioBridgeAction,
    pub allowed: Vec<String>,
    pub options: AudioBridgeAllowedOptions,
}

impl AudioBridgeAllowedMsg {
    pub fn new(
        room: u64,
        action: AudioBridgeAction,
        allowed: Vec<String>,
        options: AudioBridgeAllowedOptions,
    ) -> (msg: Self)
        ensures
            msg == (AudioBridgeAllowedMsg { room, action, allowed, options }),
    {
        AudioBridgeAllowedMsg { room, action, allowed, options }
    }
}

#[derive(Clone, Copy, Debug, PartialEq, Eq)]
pub struct AudioBridgeExistsMsg {
    pub room: u64,
}

impl AudioBridgeExistsMsg {
    pub fn new(room: u64) -> (msg: Self)
        ensures
            msg == (AudioBridgeExistsMsg { room }),
    {
        AudioBridgeExistsMsg { room }
    }
}

#[derive(Clone, Debug, PartialEq, Eq)]
pub struct AudioBridgeKickOptions {
    pub secret: Option<String>,
}

#[derive(Clone, Debug, PartialEq, Eq)]
pub struct AudioBridgeKickMsg {
    pub room: u64,
    pub id: u64,
    pub options: AudioBridgeKickOptions,
}

impl AudioBridgeKickMsg {
    pub fn new(room: u64, participant: u64, options: AudioBridgeKickOptions) -> (msg: Self)
        ensures
            msg == (AudioBridgeKickMsg { room, id: participant, options }),
    {
        AudioBridgeKickMsg { room, id: participant, options }
    }
}

#[derive(Clone, Debug, PartialEq, Eq)]
pub struct AudioBridgeKickAllOptions {
    pub secret: Option<String>,
}

#[derive(Clone, Debug, PartialEq, Eq)]
pub struct AudioBridgeKickAllMsg {
    pub room: u64,
    pub options: AudioBridgeKickAllOptions,
}

impl AudioBridgeKickAllMsg {
    pub fn new(room: u64, options: AudioBridgeKickAllOptions) -> (msg: Self)
        ensures
            msg == (AudioBridgeKickAllMsg { room, options }),
    {
        AudioBridgeKickAllMsg { room, options }
    }
}

#[derive(Clone, Debug, PartialEq, Eq)]
pub struct AudioBridgeSuspendOptions {
    pub secret: Option<String>,
    pub stop_record: Option<bool>,
    pub pause_events: Option<bool>,
}

#[derive(Clone, Debug, PartialEq, Eq)]
pub struct AudioBridgeSuspendMsg {
    pub room: u64,
    pub id: u64,
    pub options: AudioBridgeSuspendOptions,
}

impl AudioBridgeSuspendMsg {
    pub fn new(room: u64, participant: u64, options: AudioBridgeSuspendOptions) -> (msg: Self)
        ensures
            msg == (AudioBridgeSuspendMsg { room, id: participant, options }),
    {
        AudioBridgeSuspendMsg { room, id: participant, options }
    }
}

#[derive(Clone, Debug, PartialEq, Eq)]
pub struct AudioBridgeResumeOptions {
    pub secret: Option<String>,
}

#[derive(Clone, Debug, PartialEq, Eq)]
pub struct AudioBridgeResumeMsg {
    pub room: u64,
    pub id: u64,
    pub options: AudioBridgeResumeOptions,
}

impl AudioBridgeResumeMsg {
    pub fn new(room: u64, participant: u64, options: AudioBridgeResumeOptions) -> (msg: Self)
        ensures
            msg == (AudioBridgeResumeMsg { room, id: participant, options }),
    {
        AudioBridgeResumeMsg { room, id: participant, options }
    }
}

#[derive(Clone, Copy, Debug, PartialEq, Eq)]
pub struct AudioBridgeListParticipantsMsg {
    pub room: u64,
}

impl AudioBridgeListParticipantsMsg {
    pub fn new(room: u64) -> (msg: Self)
        ensures
            msg == (AudioBridgeListParticipantsMsg { room }),
    {
        AudioBridgeListParticipantsMsg { room }
    }
}

} // verus!
