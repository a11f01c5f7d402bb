//! A sans-I/O engine for the signalling protocol of a WebRTC media-server
//! gateway: transaction correlation, event routing, and the lifecycle of
//! connections, sessions and plugin handles.

use crate::error::JaError;
use crate::jaconfig::JaConfig;
use crate::jaconnection::{ConnectionView, JaConnection};
use vstd::prelude::*;

pub mod audio_bridge;
pub mod cancellation;
pub mod echotest;
pub mod error;
pub mod guarantees;
pub mod jaconfig;
pub mod jaconnection;
pub mod jahandle;
pub mod japlugin;
pub mod japrotocol;
pub mod jasession;
pub mod nsp_registry;
pub mod prelude;
pub mod tgenerator;
pub mod tmanager;
pub mod transport;

verus! {

/// Makes the connection for `jaconfig`. It waits for the transport that the
/// configuration names: no request is accepted until the driver reports
/// with `JaConnection::open` that the transport is connected.
pub fn connect<S>(jaconfig: JaConfig) -> (connection: JaConnection<S>)
    ensures
        connection@ == ConnectionView::<S>::connecting(jaconfig),
        connection@.wf(),
{
    JaConnection::new(jaconfig)
}

/// Makes the connection for `jaconfig` over a transport of the caller's
/// own. `transport` is what the attempt to connect it came to: where it
/// succeeded, the connection is open; where it failed, there is no
/// connection, and the failure is handed on.
pub fn connect_with_transport<S>(jaconfig: JaConfig, transport: Result<(), JaError>) -> (r: Result<
    JaConnection<S>,
    JaError,
>)
    ensures
        match transport {
            Ok(()) => r matches Ok(connection) && connection@ == ConnectionView::<S>::connecting(
                jaconfig,
            ).open() && connection@.wf(),
            Err(error) => r matches Err(e) && e == error,
        },
{
    match transport {
        Ok(()) => {
            let mut connection = connect(jaconfig);
            let _ = connection.open();
            Ok(connection)
        },
        Err(error) => Err(error),
    }
}

} // verus!
