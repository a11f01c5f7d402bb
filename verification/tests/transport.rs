use jarust::error::JaError;
use jarust::jaconfig::{JaConfig, TransportType};
use jarust::jaconnection::{ConnectionState, Discard, Dispatch, Failed, JaConnection};
use jarust::japrotocol::{JaResponse, ResponseType};
use jarust::transport::{Reaction, TransportEvent};
use jarust::{connect, connect_with_transport};

fn waiting() -> JaConnection<u32> {
    connect(JaConfig::new("wss://janus.example.org/ws", 32, TransportType::Wss))
}

fn ack(transaction: &str) -> JaResponse {
    JaResponse {
        janus: ResponseType::Ack,
        transaction: Some(transaction.to_string()),
        session_id: None,
        sender: None,
        establishment_protocol: None,
    }
}

#[test]
fn connected_opens_a_waiting_connection() {
    let mut connection = waiting();
    assert_eq!(connection.on_transport_event(TransportEvent::Connected), Reaction::Opened);
    assert_eq!(connection.state(), ConnectionState::Open);
    assert_eq!(connection.on_transport_event(TransportEvent::Connected), Reaction::Ignored);
    assert_eq!(connection.state(), ConnectionState::Open);
}

#[test]
fn connected_does_not_reopen_a_closed_connection() {
    let mut connection = waiting();
    let _ = connection.close();
    assert_eq!(connection.on_transport_event(TransportEvent::Connected), Reaction::Ignored);
    assert_eq!(connection.state(), ConnectionState::Closed);
}

#[test]
fn a_frame_goes_through_the_dispatch_step() {
    let mut connection = waiting();
    assert_eq!(
        connection.on_transport_event(TransportEvent::Message(ack("a"))),
        Reaction::Routed(Dispatch::Discarded { message: ack("a"), reason: Discard::NotOpen })
    );
    let _ = connection.open();
    connection.enroll(&"a".to_string(), 5, 0).unwrap();
    assert_eq!(
        connection.on_transport_event(TransportEvent::Message(ack("a"))),
        Reaction::Routed(Dispatch::Resolved { sink: 5, message: ack("a") })
    );
    assert_eq!(connection.in_flight(), 0);
}

#[test]
fn malformed_data_neither_fails_nor_ends_the_connection() {
    let mut connection = waiting();
    let _ = connection.open();
    connection.enroll(&"a".to_string(), 5, 0).unwrap();
    assert_eq!(connection.on_transport_event(TransportEvent::Malformed), Reaction::Ignored);
    assert_eq!(connection.state(), ConnectionState::Open);
    assert!(connection.is_pending(&"a".to_string()));
}

#[test]
fn a_transport_failure_closes_the_connection() {
    let mut connection = waiting();
    let _ = connection.open();
    connection.enroll(&"a".to_string(), 5, 0).unwrap();
    connection.enroll(&"b".to_string(), 6, 0).unwrap();
    assert_eq!(
        connection.on_transport_event(TransportEvent::Failed),
        Reaction::Terminated(vec![
            Failed { error: JaError::ConnectionClosed, sink: 5 },
            Failed { error: JaError::ConnectionClosed, sink: 6 },
        ])
    );
    assert_eq!(connection.state(), ConnectionState::Closed);
    assert_eq!(connection.in_flight(), 0);
}

#[test]
fn the_end_of_the_stream_closes_the_connection() {
    let mut connection: JaConnection<u32> = connect_with_transport(
        JaConfig::new("wss://janus.example.org/ws", 32, TransportType::Wss),
        Ok(()),
    )
    .unwrap();
    connection.enroll(&"a".to_string(), 5, 0).unwrap();
    assert_eq!(
        connection.on_transport_event(TransportEvent::Ended),
        Reaction::Terminated(vec![Failed { error: JaError::ConnectionClosed, sink: 5 }])
    );
    assert_eq!(connection.on_transport_event(TransportEvent::Ended), Reaction::Terminated(vec![]));
    assert_eq!(connection.state(), ConnectionState::Closed);
}

#[test]
fn deadline_counts_from_the_registration() {
    let mut connection: JaConnection<u32> = connect_with_transport(
        JaConfig::new("wss://janus.example.org/ws", 32, TransportType::Wss),
        Ok(()),
    )
    .unwrap();
    connection.enroll(&"a".to_string(), 5, 1_500).unwrap();
    connection.enroll(&"b".to_string(), 6, u64::MAX - 3).unwrap();
    assert_eq!(connection.deadline(&"a".to_string(), 10_000), Some(11_500));
    assert_eq!(connection.deadline(&"a".to_string(), 0), Some(1_500));
    assert_eq!(connection.deadline(&"b".to_string(), 10_000), Some(u64::MAX));
    assert_eq!(connection.deadline(&"zz".to_string(), 10_000), None);
    let _ = connection.timeout(&"a".to_string());
    assert_eq!(connection.deadline(&"a".to_string(), 10_000), None);
}
