//! The audio-bridge wrapper of a handle. Each request of the plugin is a
//! message of the wrapped handle that is answered by plugin data; the
//! functions here say what goes out and what a typed answer means.

use crate::audio_bridge::messages::{
    AudioBridgeCreateMsg, AudioBridgeCreateOptions, AudioBridgeJoin, AudioBridgeJoinMsg,
    AudioBridgeJoinOptions,
};
use crate::audio_bridge::results::{
    AudioBridgePluginData, AudioBridgePluginEvent, Participant, Room,
};
use crate::error::JaError;
use crate::jahandle::JaHandle;
use crate::cancellation::Triggered;
use crate::japlugin::{abort_all, handles_of, lemma_handles_of_concat, PluginTask};
use crate::japrotocol::EstablishmentProtocol;
use tokio::task::AbortHandle;
use vstd::prelude::*;

verus! {

/// A handle attached to the audio-bridge plugin, with the background tasks
/// that were spawned for it.
pub struct AudioBridgeHandle {
    handle: JaHandle,
    abort_handles: Option<Vec<AbortHandle>>,
    done: Option<Vec<Triggered>>,
}

/// The answer to the creation of a room: its number, and whether it was saved.
pub open spec fn created(response: Result<AudioBridgePluginData, JaError>) -> Result<
    (u64, bool),
    JaError,
> {
    match response {
        Ok(data) => match data.event {
            AudioBridgePluginEvent::CreateRoom { room, permanent } => Ok((room, permanent)),
            _ => Err(JaError::UnexpectedResponse),
        },
        Err(error) => Err(error),
    }
}

/// The answer to the edit of a room: its number.
pub open spec fn edited(response: Result<AudioBridgePluginData, JaError>) -> Result<u64, JaError> {
    match response {
        Ok(data) => match data.event {
            AudioBridgePluginEvent::EditRoom { room } => Ok(room),
            _ => Err(JaError::UnexpectedResponse),
        },
        Err(error) => Err(error),
    }
}

/// The answer to the destruction of a room: its number, and whether it was
/// removed from the configuration too.
pub open spec fn destroyed(response: Result<AudioBridgePluginData, JaError>) -> Result<
    (u64, bool),
    JaError,
> {
    match response {
        Ok(data) => match data.event {
            AudioBridgePluginEvent::DestroyRoom { room, permanent } => Ok((room, permanent)),
            _ => Err(JaError::UnexpectedResponse),
        },
        Err(error) => Err(error),
    }
}

/// The answer to a listing of rooms.
pub open spec fn listed(response: Result<AudioBridgePluginData, JaError>) -> Result<
    Vec<Room>,
    JaError,
> {
    match response {
        Ok(data) => match data.event {
            AudioBridgePluginEvent::List { list } => Ok(list),
            _ => Err(JaError::UnexpectedResponse),
        },
        Err(error) => Err(error),
    }
}

/// The answer to a change of who may join: the room and its tokens.
pub open spec fn allowance(response: Result<AudioBridgePluginData, JaError>) -> Result<
    (u64, Vec<String>),
    JaError,
> {
    match response {
        Ok(data) => match data.event {
            AudioBridgePluginEvent::Allowed { room, allowed } => Ok((room, allowed)),
            _ => Err(JaError::UnexpectedResponse),
        },
        Err(error) => Err(error),
    }
}

/// The answer to the question whether a room exists.
pub open spec fn existence(response: Result<AudioBridgePluginData, JaError>) -> Result<
    bool,
    JaError,
> {
    match response {
        Ok(data) => match data.event {
            AudioBridgePluginEvent::ExistsRoom { exists, .. } => Ok(exists),
            _ => Err(JaError::UnexpectedResponse),
        },
        Err(error) => Err(error),
    }
}

/// The answer to a request that is confirmed and carries nothing.
pub open spec fn confirmed(response: Result<AudioBridgePluginData, JaError>) -> Result<
    (),
    JaError,
> {
    match response {
        Ok(data) => match data.event {
            AudioBridgePluginEvent::Success {  } => Ok(()),
            _ => Err(JaError::UnexpectedResponse),
        },
        Err(error) => Err(error),
    }
}

/// The answer to a listing of participants: the room and who is in it.
pub open spec fn participants_listed(response: Result<AudioBridgePluginData, JaError>) -> Result<
    (u64, Vec<Participant>),
    JaError,
> {
    match response {
        Ok(data) => match data.event {
            AudioBridgePluginEvent::ListParticipants { room, participants } => Ok(
                (room, participants),
            ),
            _ => Err(JaError::UnexpectedResponse),
        },
        Err(error) => Err(error),
    }
}

impl AudioBridgeHandle {
    /// The handle that is wrapped.
    pub closed spec fn spec_handle(self) -> JaHandle {
        self.handle
    }

    /// The request that creates a room with the given number and the
    /// server's defaults for everything else. Without a number the server
    /// picks one. The answer is read by
    /// [`AudioBridgeHandle::create_room_with_config`].
    pub fn create_room(&self, room: Option<u64>) -> (msg: AudioBridgeCreateMsg)
        ensures
            msg == (AudioBridgeCreateMsg {
                options: AudioBridgeCreateOptions {
                    room,
                    ..AudioBridgeCreateOptions::spec_default()
                },
            }),
    {
        let defaults = AudioBridgeCreateOptions::default();
        AudioBridgeCreateMsg::new(AudioBridgeCreateOptions { room, ..defaults })
    }

    /// Reads the answer to the creation of a room.
    pub fn create_room_with_config(&self, response: Result<AudioBridgePluginData, JaError>) -> (r:
        Result<(u64, bool), JaError>)
        ensures
            r == created(response),
    {
        let data = match response {
            Ok(data) => data,
            Err(error) => {
                return Err(error);
            },
        };
        match data.event {
            AudioBridgePluginEvent::CreateRoom { room, permanent } => Ok((room, permanent)),
            _ => Err(JaError::UnexpectedResponse),
        }
    }

    /// Reads the answer to the edit of a room.
    pub fn edit_room(&self, response: Result<AudioBridgePluginData, JaError>) -> (r: Result<
        u64,
        JaError,
    >)
        ensures
            r == edited(response),
    {
        let data = match response {
            Ok(data) => data,
            Err(error) => {
                return Err(error);
            },
        };
        match data.event {
            AudioBridgePluginEvent::EditRoom { room } => Ok(room),
            _ => Err(JaError::UnexpectedResponse),
        }
    }

    /// Reads the answer to the destruction of a room.
    pub fn destroy_room(&self, response: Result<AudioBridgePluginData, JaError>) -> (r: Result<
        (u64, bool),
        JaError,
    >)
        ensures
            r == destroyed(response),
    {
        let data = match response {
            Ok(data) => data,
            Err(error) => {
                return Err(error);
            },
        };
        match data.event {
            AudioBridgePluginEvent::DestroyRoom { room, permanent } => Ok((room, permanent)),
            _ => Err(JaError::UnexpectedResponse),
        }
    }

    /// Decides how a join request goes out: with the establishment protocol
    /// attached where there is one, as an acknowledged message otherwise.
    pub fn join_room(
        &self,
        room: u64,
        options: AudioBridgeJoinOptions,
        protocol: Option<EstablishmentProtocol>,
    ) -> (join: AudioBridgeJoin)
        ensures
            join == match protocol {
                Some(protocol) => AudioBridgeJoin::MessageWithEstablishment(
                    AudioBridgeJoinMsg { room, options },
                    protocol,
                ),
                None => AudioBridgeJoin::MessageWithAck(AudioBridgeJoinMsg { room, options }),
            },
    {
        match protocol {
            Some(protocol) => AudioBridgeJoin::MessageWithEstablishment(
                AudioBridgeJoinMsg::new(room, options),
                protocol,
            ),
            None => AudioBridgeJoin::MessageWithAck(AudioBridgeJoinMsg::new(room, options)),
        }
    }

    /// Reads the answer to a listing of rooms.
    pub fn list(&self, response: Result<AudioBridgePluginData, JaError>) -> (r: Result<
        Vec<Room>,
        JaError,
    >)
        ensures
            r == listed(response),
    {
        let data = match response {
            Ok(data) => data,
            Err(error) => {
                return Err(error);
            },
        };
        match data.event {
            AudioBridgePluginEvent::List { list } => Ok(list),
            _ => Err(JaError::UnexpectedResponse),
        }
    }

    /// Reads the answer to a change of who may join a room.
    pub fn allowed(&self, response: Result<AudioBridgePluginData, JaError>) -> (r: Result<
        (u64, Vec<String>),
        JaError,
    >)
        ensures
            r == allowance(response),
    {
        let data = match response {
            Ok(data) => data,
            Err(error) => {
                return Err(error);
            },
        };
        match data.event {
            AudioBridgePluginEvent::Allowed { room, allowed } => Ok((room, allowed)),
            _ => Err(JaError::UnexpectedResponse),
        }
    }

    /// Reads the answer to the question whether a room exists.
    pub fn room_exists(&self, response: Result<AudioBridgePluginData, JaError>) -> (r: Result<
        bool,
        JaError,
    >)
        ensures
            r == existence(response),
    {
        let data = match response {
            Ok(data) => data,
            Err(error) => {
                return Err(error);
            },
        };
        match data.event {
            AudioBridgePluginEvent::ExistsRoom { exists, .. } => Ok(exists),
            _ => Err(JaError::UnexpectedResponse),
        }
    }

    /// Reads the answer to the removal of a participant from a room.
    pub fn kick(&self, response: Result<AudioBridgePluginData, JaError>) -> (r: Result<(), JaError>)
        ensures
            r == confirmed(response),
    {
        let data = match response {
            Ok(data) => data,
            Err(error) => {
                return Err(error);
            },
        };
        match data.event {
            AudioBridgePluginEvent::Success {  } => Ok(()),
            _ => Err(JaError::UnexpectedResponse),
        }
    }

    /// Reads the answer to the removal of all participants from a room.
    pub fn kick_all(&self, response: Result<AudioBridgePluginData, JaError>) -> (r: Result<
        (),
        JaError,
    >)
        ensures
            r == confirmed(response),
    {
        let data = match response {
            Ok(data) => data,
            Err(error) => {
                return Err(error);
            },
        };
        match data.event {
            AudioBridgePluginEvent::Success {  } => Ok(()),
            _ => Err(JaError::UnexpectedResponse),
        }
    }

    /// Reads the answer to the suspension of a participant.
    pub fn suspend(&self, response: Result<AudioBridgePluginData, JaError>) -> (r: Result<
        (),
        JaError,
    >)
        ensures
            r == confirmed(response),
    {
        let data = match response {
            Ok(data) => data,
            Err(error) => {
                return Err(error);
            },
        };
        match data.event {
            AudioBridgePluginEvent::Success {  } => Ok(()),
            _ => Err(JaError::UnexpectedResponse),
        }
    }

    /// Reads the answer to the resumption of a suspended participant.
    pub fn resume(&self, response: Result<AudioBridgePluginData, JaError>) -> (r: Result<
        (),
        JaError,
    >)
        ensures
            r == confirmed(response),
    {
        let data = match response {
            Ok(data) => data,
            Err(error) => {
                return Err(error);
            },
        };
        match data.event {
            AudioBridgePluginEvent::Success {  } => Ok(()),
            _ => Err(JaError::UnexpectedResponse),
        }
    }

    /// Reads the answer to a listing of the participants of a room.
    pub fn list_participants(&self, response: Result<AudioBridgePluginData, JaError>) -> (r: Result<
        (u64, Vec<Participant>),
        JaError,
    >)
        ensures
            r == participants_listed(response),
    {
        let data = match response {
            Ok(data) => data,
            Err(error) => {
                return Err(error);
            },
        };
        match data.event {
            AudioBridgePluginEvent::ListParticipants { room, participants } => Ok(
                (room, participants),
            ),
            _ => Err(JaError::UnexpectedResponse),
        }
    }
}

impl AudioBridgeHandle {
    /// Tears the wrapper down: every task it owns is triggered, and only
    /// then is the wrapped handle given back, to be detached. With it come
    /// the records of everything the wrapper triggered in its time, the
    /// tasks it owned to the last among them. The wrapper is used up, so its
    /// tasks are triggered by one teardown and no more.
    pub fn teardown(self) -> (r: (JaHandle, Vec<Triggered>))
        ensures
            r.0 == self.spec_handle(),
            handles_of(r.1@) == self.triggered() + self.tasks(),
    {
        let mut wrapper = self;
        wrapper.abort_plugin();
        let done = match wrapper.done {
            Some(done) => done,
            None => Vec::new(),
        };
        assert(handles_of(done@) =~= wrapper.triggered());
        (wrapper.handle, done)
    }

    /// Reads what the exchange of a request came to, for a caller that
    /// wants to know no more than whether it went well.
    pub fn joined<R>(&self, outcome: Result<R, JaError>) -> (r: Result<(), JaError>)
        ensures
            r == match outcome {
                Ok(_) => Ok::<(), JaError>(()),
                Err(error) => Err::<(), JaError>(error),
            },
    {
        match outcome {
            Ok(_) => Ok(()),
            Err(error) => Err(error),
        }
    }
}

impl PluginTask for AudioBridgeHandle {
    closed spec fn tasks(&self) -> Seq<AbortHandle> {
        match self.abort_handles {
            Some(handles) => handles@,
            None => Seq::empty(),
        }
    }

    closed spec fn triggered(&self) -> Seq<AbortHandle> {
        match self.done {
            Some(records) => handles_of(records@),
            None => Seq::empty(),
        }
    }

    fn assign_aborts(&mut self, abort_handles: Vec<AbortHandle>)
        ensures
            final(self).spec_handle() == old(self).spec_handle(),
    {
        self.abort_handles = Some(abort_handles);
    }

    fn abort_plugin(&mut self)
        ensures
            final(self).spec_handle() == old(self).spec_handle(),
    {
        if let Some(abort_handles) = self.abort_handles.take() {
            let mut more = abort_all(abort_handles);
            let mut done = match self.done.take() {
                Some(done) => done,
                None => Vec::new(),
            };
            proof {
                lemma_handles_of_concat(done@, more@);
                assert(handles_of(done@) =~= old(self).triggered());
            }
            done.append(&mut more);
            self.done = Some(done);
        } else {
            assert(self.triggered() + Seq::<AbortHandle>::empty() =~= self.triggered());
        }
    }
}

impl From<JaHandle> for AudioBridgeHandle {
    fn from(handle: JaHandle) -> (wrapper: Self)
        ensures
            wrapper.spec_handle() == handle,
            wrapper.tasks() == Seq::<AbortHandle>::empty(),
            wrapper.triggered() == Seq::<AbortHandle>::empty(),
    {
        AudioBridgeHandle { handle, abort_handles: None, done: None }
    }
}

impl vstd::std_specs::convert::FromSpecImpl<JaHandle> for AudioBridgeHandle {
    open spec fn obeys_from_spec() -> bool {
        true
    }

    closed spec fn from_spec(handle: JaHandle) -> Self {
        AudioBridgeHandle { handle, abort_handles: None, done: None }
    }
}

impl core::ops::Deref for AudioBridgeHandle {
    type Target = JaHandle;

    fn deref(&self) -> (handle: &JaHandle)
        ensures
            *handle == self.spec_handle(),
    {
        &self.handle
    }
}

} // verus!
