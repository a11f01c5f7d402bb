//! The echo-test wrapper of a handle.

use crate::echotest::messages::{EchoTestStart, EchoTestStartMsg};
use crate::error::JaError;
use crate::jahandle::JaHandle;
use crate::cancellation::Triggered;
use crate::japlugin::{abort_all, handles_of, lemma_handles_of_concat, PluginTask};
use crate::japrotocol::{EstablishmentProtocol, JsepType};
use tokio::task::AbortHandle;
use vstd::prelude::*;

verus! {

/// A handle attached to the echo-test plugin, with the background tasks
/// that were spawned for it.
pub struct EchoTestHandle {
    handle: JaHandle,
    abort_handles: Option<Vec<AbortHandle>>,
    done: Option<Vec<Triggered>>,
}

impl EchoTestHandle {
    /// The handle that is wrapped.
    pub closed spec fn spec_handle(self) -> JaHandle {
        self.handle
    }

    /// Decides how a start request goes out. Without a session description
    /// it is a plain message. With an offer, the offer is taken out of the
    /// body and attached as the establishment protocol. Any other session
    /// description is refused before anything is sent.
    pub fn start(&self, request: EchoTestStartMsg) -> (r: Result<EchoTestStart, JaError>)
        ensures
            match request.jsep {
                None => r == Ok::<EchoTestStart, JaError>(EchoTestStart::Message(request)),
                Some(jsep) => if jsep.jsep_type is Offer {
                    r == Ok::<EchoTestStart, JaError>(
                        EchoTestStart::MessageWithEstablishment(
                            EchoTestStartMsg { jsep: None, ..request },
                            EstablishmentProtocol::JSEP(jsep),
                        ),
                    )
                } else {
                    r matches Err(JaError::InvalidJanusRequest { reason }) && reason@
                        == "jsep must be an offer"@
                },
            },
    {
        let mut request = request;
        let jsep = match request.jsep.take() {
            None => {
                return Ok(EchoTestStart::Message(request));
            },
            Some(jsep) => jsep,
        };
        match jsep.jsep_type {
            JsepType::Offer => Ok(
                EchoTestStart::MessageWithEstablishment(request, EstablishmentProtocol::JSEP(jsep)),
            ),
            _ => Err(JaError::InvalidJanusRequest { reason: "jsep must be an offer".to_owned() }),
        }
    }
}

impl EchoTestHandle {
    /// Tears the wrapper down: every task it owns is triggered, and only
    /// then is the wrapped handle given back, to be detached. With it come
    /// the records of everything the wrapper triggered in its time, the
    /// tasks it owned to the last among them. The wrapper is used up, so its
    /// tasks are triggered by one teardown and no more.
    pub fn teardown(self) -> (r: (JaHandle, Vec<Triggered>))
        ensures
            r.0 == self.spec_handle(),
            handles_of(r.1@) == self.triggered() + self.tasks(),
    {
        let mut wrapper = self;
        wrapper.abort_plugin();
        let done = match wrapper.done {
            Some(done) => done,
            None => Vec::new(),
        };
        assert(handles_of(done@) =~= wrapper.triggered());
        (wrapper.handle, done)
    }

    /// Reads what the exchange of a request came to, for a caller that
    /// wants to know no more than whether it went well.
    pub fn started<R>(&self, outcome: Result<R, JaError>) -> (r: Result<(), JaError>)
        ensures
            r == match outcome {
                Ok(_) => Ok::<(), JaError>(()),
                Err(error) => Err::<(), JaError>(error),
            },
    {
        match outcome {
            Ok(_) => Ok(()),
            Err(error) => Err(error),
        }
    }
}

impl PluginTask for EchoTestHandle {
    closed spec fn tasks(&self) -> Seq<AbortHandle> {
        match self.abort_handles {
            Some(handles) => handles@,
            None => Seq::empty(),
        }
    }

    closed spec fn triggered(&self) -> Seq<AbortHandle> {
        match self.done {
            Some(records) => handles_of(records@),
            None => Seq::empty(),
        }
    }

    fn assign_aborts(&mut self, abort_handles: Vec<AbortHandle>)
        ensures
            final(self).spec_handle() == old(self).spec_handle(),
    {
        self.abort_handles = Some(abort_handles);
    }

    fn abort_plugin(&mut self)
        ensures
            final(self).spec_handle() == old(self).spec_handle(),
    {
        if let Some(abort_handles) = self.abort_handles.take() {
            let mut more = abort_all(abort_handles);
            let mut done = match self.done.take() {
                Some(done) => done,
                None => Vec::new(),
            };
            proof {
                lemma_handles_of_concat(done@, more@);
                assert(handles_of(done@) =~= old(self).triggered());
            }
            done.append(&mut more);
            self.done = Some(done);
        } else {
            assert(self.triggered() + Seq::<AbortHandle>::empty() =~= self.triggered());
        }
    }
}

impl From<JaHandle> for EchoTestHandle {
    fn from(handle: JaHandle) -> (wrapper: Self)
        ensures
            wrapper.spec_handle() == handle,
            wrapper.tasks() == Seq::<AbortHandle>::empty(),
            wrapper.triggered() == Seq::<AbortHandle>::empty(),
    {
        EchoTestHandle { handle, abort_handles: None, done: None }
    }
}

impl vstd::std_specs::convert::FromSpecImpl<JaHandle> for EchoTestHandle {
    open spec fn obeys_from_spec() -> bool {
        true
    }

    closed spec fn from_spec(handle: JaHandle) -> Self {
        EchoTestHandle { handle, abort_handles: None, done: None }
    }
}

impl core::ops::Deref for EchoTestHandle {
    type Target = JaHandle;

    fn deref(&self) -> (handle: &JaHandle)
        ensures
            *handle == self.spec_handle(),
    {
        &self.handle
    }
}

} // verus!
