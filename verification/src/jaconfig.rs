//! How a connection is configured.

use vstd::prelude::*;

verus! {

/// The kinds of transport a connection can run over.
#[derive(Clone, Copy, Debug, PartialEq, Eq)]
pub enum TransportType {
    /// A secure WebSocket.
    Wss,
}

/// The endpoint to connect to, the transport to use, and how many inbound
/// frames may wait between the transport and the dispatch loop.
#[derive(Clone, Debug, PartialEq, Eq)]
pub struct JaConfig {
    pub url: String,
    pub capacity: usize,
    pub transport_type: TransportType,
}

impl JaConfig {
    pub fn new(url: &str, capacity: usize, transport_type: TransportType) -> (config: JaConfig)
        ensures
            config.url@ == url@,
            config.capacity == capacity,
            config.transport_type == transport_type,
    {
        JaConfig { url: url.to_owned(), capacity, transport_type }
    }
}

} // verus!
