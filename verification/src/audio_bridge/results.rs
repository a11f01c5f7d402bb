//! What the audio-bridge plugin answers.

use vstd::prelude::*;

verus! {

/// One audio room, as the plugin lists it.
#[derive(Clone, Debug, PartialEq, Eq)]
pub struct Room {
    pub room: u64,
    pub description: String,
    pub pin_required: bool,
    pub sampling_rate: u64,
    pub record: bool,
    pub num_participants: u64,
}

/// One participant of a room, as the plugin lists it.
#[derive(Clone, Debug, PartialEq, Eq)]
pub struct Participant {
    pub id: u64,
    pub display: Option<String>,
    pub setup: bool,
    pub muted: bool,
}

/// The answers of the plugin, one variant per kind.
#[derive(Clone, Debug, PartialEq, Eq)]
pub enum AudioBridgePluginEvent {
    CreateRoom { room: u64, permanent: bool },
    EditRoom { room: u64 },
    DestroyRoom { room: u64, permanent: bool },
    ExistsRoom { room: u64, exists: bool },
    List { list: Vec<Room> },
    Allowed { room: u64, allowed: Vec<String> },
    ListParticipants { room: u64, participants: Vec<Participant> },
    Success {  },
}

/// The plugin data of an audio-bridge response, in its typed form.
#[derive(Clone, Debug, PartialEq, Eq)]
pub struct AudioBridgePluginData {
    pub event: AudioBridgePluginEvent,
}

} // verus!
