use jarust::error::JaError;
use jarust::jaconfig::{JaConfig, TransportType};
use jarust::jaconnection::{ConnectionState, Discard, Dispatch, Failed, JaConnection};
use jarust::jahandle::{Awaited, JaHandle};
use jarust::japlugin::Attach;
use jarust::japrotocol::{
    Answer, EstablishmentProtocol, Expect, GenericEvent, JaHandleEvent, JaRequest, JaResponse,
    JaSuccessProtocol, Jsep, JsepType, PluginData, ResponseType,
};
use jarust::jasession::JaSession;
use jarust::nsp_registry::{EventReceiver, Received};
use jarust::{connect, connect_with_transport};
use serde_json::Value;

fn open_connection() -> JaConnection<&'static str> {
    connect_with_transport(JaConfig::new("wss://janus.example.org/ws", 32, TransportType::Wss), Ok(()))
        .unwrap()
}

fn frame(janus: ResponseType, transaction: Option<&str>) -> JaResponse {
    JaResponse {
        janus,
        transaction: transaction.map(|t| t.to_string()),
        session_id: None,
        sender: None,
        establishment_protocol: None,
    }
}

fn success(transaction: &str, id: u64) -> JaResponse {
    frame(ResponseType::Success(JaSuccessProtocol::Data { id }), Some(transaction))
}

fn ack(transaction: &str) -> JaResponse {
    frame(ResponseType::Ack, Some(transaction))
}

fn error(transaction: &str, code: u16, reason: &str) -> JaResponse {
    frame(ResponseType::Error { code, reason: reason.to_string() }, Some(transaction))
}

fn echo_body() -> Value {
    let mut body = serde_json::Map::new();
    body.insert("video".to_string(), Value::Bool(true));
    body.insert("audio".to_string(), Value::Bool(true));
    Value::Object(body)
}

fn offer() -> EstablishmentProtocol {
    EstablishmentProtocol::JSEP(Jsep {
        jsep_type: JsepType::Offer,
        sdp: "v=0 offer".to_string(),
        trickle: Some(false),
    })
}

fn answer() -> EstablishmentProtocol {
    EstablishmentProtocol::JSEP(Jsep {
        jsep_type: JsepType::Answer,
        sdp: "v=0 answer".to_string(),
        trickle: None,
    })
}

fn attached(
    connection: &mut JaConnection<&'static str>,
    session_id: u64,
    handle_id: u64,
) -> (JaSession, JaHandle, EventReceiver) {
    let session = JaSession::established(success("s", session_id), 10, 0).unwrap();
    let (handle, receiver) = session.attached(connection, success("h", handle_id)).unwrap();
    (session, handle, receiver)
}

#[test]
fn a_session_is_made_from_a_success_frame() {
    let session = JaSession::established(success("tx", 4242), 10, 5_000).unwrap();
    assert_eq!(session.id(), 4242);
    assert_eq!(session.ka_interval(), 10);
    assert_eq!(session.next_keepalive(), 5_000);
}

#[test]
fn session_creation_fails_on_an_error_frame() {
    assert_eq!(
        JaSession::established(error("tx", 403, "Unauthorized"), 10, 0),
        Err(JaError::JanusError { code: 403, reason: "Unauthorized".to_string() })
    );
}

#[test]
fn session_creation_fails_on_a_frame_of_the_wrong_kind() {
    assert_eq!(JaSession::established(ack("tx"), 10, 0), Err(JaError::UnexpectedResponse));
    let plugin = frame(
        ResponseType::Success(JaSuccessProtocol::Plugin {
            plugin_data: PluginData { plugin: "janus.plugin.echotest".to_string(), data: Value::Null },
        }),
        Some("tx"),
    );
    assert_eq!(JaSession::established(plugin, 10, 0), Err(JaError::UnexpectedResponse));
}

#[test]
fn keepalive_is_due_every_interval() {
    let mut session = JaSession::established(success("tx", 1), 10, 5_000).unwrap();
    assert!(!session.tick(4_999));
    assert_eq!(session.next_keepalive(), 5_000);
    assert!(session.tick(5_000));
    assert_eq!(session.next_keepalive(), 15_000);
    assert!(!session.tick(14_999));
    assert_eq!(session.next_keepalive(), 15_000);
    assert!(session.tick(15_001));
    assert_eq!(session.next_keepalive(), 25_000);
    assert_eq!(session.id(), 1);
    assert_eq!(session.ka_interval(), 10);
}

#[test]
fn a_late_keepalive_schedule_catches_up_tick_by_tick() {
    let mut session = JaSession::established(success("tx", 1), 1, 0).unwrap();
    assert!(session.tick(2_500));
    assert_eq!(session.next_keepalive(), 1_000);
    assert!(session.tick(2_500));
    assert_eq!(session.next_keepalive(), 2_000);
    assert!(session.tick(2_500));
    assert_eq!(session.next_keepalive(), 3_000);
    assert!(!session.tick(2_500));
}

#[test]
fn the_keepalive_schedule_stops_at_the_end_of_the_clock() {
    let mut session = JaSession::established(success("tx", 1), u32::MAX, u64::MAX - 5).unwrap();
    assert!(session.tick(u64::MAX - 5));
    assert_eq!(session.next_keepalive(), u64::MAX);
    assert!(!session.tick(u64::MAX - 1));
    assert!(session.tick(u64::MAX));
    assert_eq!(session.next_keepalive(), u64::MAX);
}

#[test]
fn a_zero_interval_is_always_due() {
    let mut session = JaSession::established(success("tx", 1), 0, 100).unwrap();
    assert!(session.tick(100));
    assert_eq!(session.next_keepalive(), 100);
    assert!(session.tick(100));
}

#[test]
fn keepalive_request_names_the_session_and_enrolls_nothing() {
    let connection = open_connection();
    let session = JaSession::established(success("tx", 99), 10, 0).unwrap();
    let request = session.keepalive(&connection, "ka-1".to_string()).unwrap();
    assert_eq!(request, JaRequest::KeepAlive { transaction: "ka-1".to_string(), session_id: 99 });
    assert_eq!(request.janus(), "keepalive");
    assert_eq!(request.session_id(), Some(99));
    assert_eq!(request.handle_id(), None);
    assert_eq!(connection.in_flight(), 0);
}

#[test]
fn keepalive_is_refused_while_the_connection_is_not_open() {
    let mut connection: JaConnection<&'static str> =
        connect(JaConfig::new("wss://janus.example.org/ws", 32, TransportType::Wss));
    let session = JaSession::established(success("tx", 99), 10, 0).unwrap();
    assert_eq!(
        session.keepalive(&connection, "ka-1".to_string()),
        Err(JaError::TransportNotOpened)
    );
    let _ = connection.close();
    assert_eq!(
        session.keepalive(&connection, "ka-1".to_string()),
        Err(JaError::ConnectionClosed)
    );
}

#[test]
fn attach_builds_the_envelope_and_enrolls() {
    let mut connection = open_connection();
    let session = JaSession::established(success("tx", 99), 10, 0).unwrap();
    let request = session
        .attach(&mut connection, "at-1".to_string(), "caller", "janus.plugin.echotest".to_string(), 7)
        .unwrap();
    assert_eq!(
        request,
        JaRequest::Attach {
            transaction: "at-1".to_string(),
            session_id: 99,
            plugin: "janus.plugin.echotest".to_string(),
        }
    );
    assert_eq!(request.janus(), "attach");
    assert!(connection.is_pending(&"at-1".to_string()));
}

#[test]
fn attach_is_refused_for_a_transaction_in_flight() {
    let mut connection = open_connection();
    let session = JaSession::established(success("tx", 99), 10, 0).unwrap();
    connection.enroll(&"at-1".to_string(), "first", 0).unwrap();
    assert_eq!(
        session.attach(&mut connection, "at-1".to_string(), "second", "p".to_string(), 0),
        Err(Failed { error: JaError::DuplicateTransaction, sink: "second" })
    );
}

#[test]
fn attached_subscribes_the_new_handle() {
    let mut connection = open_connection();
    let session = JaSession::established(success("tx", 99), 10, 0).unwrap();
    let (handle, receiver) = session.attached(&mut connection, success("at-1", 1234)).unwrap();
    assert_eq!(handle.id(), 1234);
    assert_eq!(handle.session_id(), 99);
    assert_eq!(receiver.session_id(), 99);
    assert_eq!(receiver.handle_id(), 1234);
    assert!(connection.is_attached(99, 1234));
    assert_eq!(connection.recv(&receiver), Received::Empty);
}

#[test]
fn attached_fails_on_an_error_frame() {
    let mut connection = open_connection();
    let session = JaSession::established(success("tx", 99), 10, 0).unwrap();
    assert_eq!(
        session.attached(&mut connection, error("at-1", 460, "No such plugin")).err(),
        Some(JaError::JanusError { code: 460, reason: "No such plugin".to_string() })
    );
    assert_eq!(
        session.attached(&mut connection, ack("at-1")).err(),
        Some(JaError::UnexpectedResponse)
    );
}

#[test]
fn attached_fails_for_a_handle_that_is_attached_already() {
    let mut connection = open_connection();
    let session = JaSession::established(success("tx", 99), 10, 0).unwrap();
    let _first = session.attached(&mut connection, success("at-1", 1234)).unwrap();
    assert_eq!(
        session.attached(&mut connection, success("at-2", 1234)).err(),
        Some(JaError::UnexpectedResponse)
    );
    assert!(connection.is_attached(99, 1234));
}

#[test]
fn attached_fails_once_the_connection_closed() {
    let mut connection = open_connection();
    let session = JaSession::established(success("tx", 99), 10, 0).unwrap();
    let _ = connection.close();
    assert_eq!(
        session.attached(&mut connection, success("at-1", 1234)).err(),
        Some(JaError::ConnectionClosed)
    );
    assert!(!connection.is_attached(99, 1234));
}

#[test]
fn fire_and_forget_builds_the_envelope_and_enrolls_nothing() {
    let mut connection = open_connection();
    let (_session, handle, _receiver) = attached(&mut connection, 99, 1234);
    let request = handle.fire_and_forget(&connection, "m-1".to_string(), echo_body()).unwrap();
    assert_eq!(
        request,
        JaRequest::Message {
            transaction: "m-1".to_string(),
            session_id: 99,
            handle_id: 1234,
            body: echo_body(),
            jsep: None,
        }
    );
    assert_eq!(request.janus(), "message");
    assert_eq!(request.session_id(), Some(99));
    assert_eq!(request.handle_id(), Some(1234));
    assert_eq!(connection.in_flight(), 0);
}

#[test]
fn fire_and_forget_with_est_attaches_the_protocol() {
    let mut connection = open_connection();
    let (_session, handle, _receiver) = attached(&mut connection, 99, 1234);
    let request = handle
        .fire_and_forget_with_est(&connection, "m-1".to_string(), echo_body(), offer())
        .unwrap();
    assert_eq!(
        request,
        JaRequest::Message {
            transaction: "m-1".to_string(),
            session_id: 99,
            handle_id: 1234,
            body: echo_body(),
            jsep: Some(offer()),
        }
    );
    assert_eq!(connection.in_flight(), 0);
}

#[test]
fn fire_and_forget_is_refused_on_a_closed_connection() {
    let mut connection = open_connection();
    let (_session, handle, _receiver) = attached(&mut connection, 99, 1234);
    let _ = connection.close();
    assert_eq!(
        handle.fire_and_forget(&connection, "m-1".to_string(), echo_body()),
        Err(JaError::ConnectionClosed)
    );
    assert_eq!(
        handle.fire_and_forget_with_est(&connection, "m-1".to_string(), echo_body(), offer()),
        Err(JaError::ConnectionClosed)
    );
}

#[test]
fn the_response_to_a_fire_and_forget_is_filed_as_an_event() {
    let mut connection = open_connection();
    let (_session, handle, receiver) = attached(&mut connection, 99, 1234);
    let _ = handle.fire_and_forget(&connection, "m-1".to_string(), echo_body()).unwrap();
    let mut reply = ack("m-1");
    reply.session_id = Some(99);
    reply.sender = Some(1234);
    let mut expected = ack("m-1");
    expected.session_id = Some(99);
    expected.sender = Some(1234);
    assert_eq!(connection.dispatch(reply), Dispatch::Event { session_id: 99, handle_id: 1234 });
    assert_eq!(connection.recv(&receiver), Received::Event(expected));
}

#[test]
fn send_waiton_ack_enrolls_and_is_settled_by_the_ack() {
    let mut connection = open_connection();
    let (_session, handle, _receiver) = attached(&mut connection, 99, 1234);
    let awaited = handle
        .send_waiton_ack(&mut connection, "m-1".to_string(), "caller", echo_body(), 10)
        .unwrap();
    assert_eq!(
        awaited,
        Awaited {
            request: JaRequest::Message {
                transaction: "m-1".to_string(),
                session_id: 99,
                handle_id: 1234,
                body: echo_body(),
                jsep: None,
            },
            expects: Expect::Ack,
        }
    );
    assert!(connection.is_pending(&"m-1".to_string()));
    match connection.dispatch(ack("m-1")) {
        Dispatch::Resolved { sink, message } => {
            assert_eq!(sink, "caller");
            assert_eq!(message.read(awaited.expects), Ok(Answer::Ack(ack("m-1"))));
        }
        other => panic!("unexpected outcome {:?}", other),
    }
    assert_eq!(connection.in_flight(), 0);
}

#[test]
fn send_waiton_ack_surfaces_any_other_frame_as_an_error() {
    let mut connection = open_connection();
    let (_session, handle, _receiver) = attached(&mut connection, 99, 1234);
    let awaited = handle
        .send_waiton_ack(&mut connection, "m-1".to_string(), "caller", echo_body(), 10)
        .unwrap();
    let mut stray = frame(
        ResponseType::Event(JaHandleEvent::GenericEvent(GenericEvent::Media)),
        Some("m-1"),
    );
    stray.session_id = Some(99);
    stray.sender = Some(1234);
    match connection.dispatch(stray) {
        Dispatch::Resolved { sink, message } => {
            assert_eq!(sink, "caller");
            assert_eq!(message.read(awaited.expects), Err(JaError::UnexpectedResponse));
        }
        other => panic!("unexpected outcome {:?}", other),
    }
}

#[test]
fn message_with_result_hands_on_the_plugin_data() {
    let mut connection = open_connection();
    let (_session, handle, _receiver) = attached(&mut connection, 99, 1234);
    let awaited = handle
        .message_with_result(&mut connection, "m-1".to_string(), "caller", echo_body(), 10)
        .unwrap();
    assert_eq!(awaited.request.transaction(), "m-1");
    assert_eq!(awaited.expects, Expect::PluginData);
    let reply = frame(
        ResponseType::Success(JaSuccessProtocol::Plugin {
            plugin_data: PluginData {
                plugin: "janus.plugin.audiobridge".to_string(),
                data: echo_body(),
            },
        }),
        Some("m-1"),
    );
    match connection.dispatch(reply) {
        Dispatch::Resolved { sink, message } => {
            assert_eq!(sink, "caller");
            assert_eq!(
                message.read(awaited.expects),
                Ok(Answer::PluginData(PluginData {
                    plugin: "janus.plugin.audiobridge".to_string(),
                    data: echo_body()
                }))
            );
        }
        other => panic!("unexpected outcome {:?}", other),
    }
}

#[test]
fn message_with_result_on_an_error_frame_is_a_protocol_error() {
    let mut connection = open_connection();
    let (_session, handle, _receiver) = attached(&mut connection, 99, 1234);
    let awaited = handle
        .message_with_result(&mut connection, "m-1".to_string(), "caller", echo_body(), 10)
        .unwrap();
    match connection.dispatch(error("m-1", 456, "Missing mandatory element")) {
        Dispatch::Resolved { sink, message } => {
            assert_eq!(sink, "caller");
            let result = message.read(awaited.expects);
            assert_eq!(
                result,
                Err(JaError::JanusError {
                    code: 456,
                    reason: "Missing mandatory element".to_string()
                })
            );
            assert_eq!(result.err().unwrap().kind(), jarust::error::ErrorKind::Protocol);
        }
        other => panic!("unexpected outcome {:?}", other),
    }
}

#[test]
fn message_with_result_on_an_ack_is_unexpected() {
    assert_eq!(ack("m-1").into_plugin_data(), Err(JaError::UnexpectedResponse));
    assert_eq!(success("m-1", 5).into_plugin_data(), Err(JaError::UnexpectedResponse));
}

#[test]
fn awaited_messages_are_refused_on_a_closed_connection() {
    let mut connection = open_connection();
    let (_session, handle, _receiver) = attached(&mut connection, 99, 1234);
    let _ = connection.close();
    assert_eq!(
        handle.send_waiton_ack(&mut connection, "m-1".to_string(), "a", echo_body(), 0),
        Err(Failed { error: JaError::ConnectionClosed, sink: "a" })
    );
    assert_eq!(
        handle.message_with_result(&mut connection, "m-2".to_string(), "b", echo_body(), 0),
        Err(Failed { error: JaError::ConnectionClosed, sink: "b" })
    );
    assert_eq!(
        handle.message_with_establishment_protocol(
            &mut connection,
            "m-3".to_string(),
            "c",
            echo_body(),
            offer(),
            0
        ),
        Err(Failed { error: JaError::ConnectionClosed, sink: "c" })
    );
    assert_eq!(connection.in_flight(), 0);
}

#[test]
fn detach_removes_the_subscriber_and_later_events_are_dropped() {
    let mut connection = open_connection();
    let (_session, handle, receiver) = attached(&mut connection, 99, 1234);
    let _ = handle.fire_and_forget(&connection, "m-1".to_string(), echo_body()).unwrap();
    assert!(handle.detach(&mut connection));
    assert!(!connection.is_attached(99, 1234));
    let mut event = frame(ResponseType::Event(JaHandleEvent::GenericEvent(GenericEvent::Media)), None);
    event.session_id = Some(99);
    event.sender = Some(1234);
    let mut expected = frame(ResponseType::Event(JaHandleEvent::GenericEvent(GenericEvent::Media)), None);
    expected.session_id = Some(99);
    expected.sender = Some(1234);
    assert_eq!(
        connection.dispatch(event),
        Dispatch::Discarded { message: expected, reason: Discard::UnknownHandle }
    );
    assert_eq!(connection.recv(&receiver), Received::Closed);
}

#[test]
fn detach_does_not_cancel_requests_in_flight() {
    let mut connection = open_connection();
    let (_session, handle, _receiver) = attached(&mut connection, 99, 1234);
    let _ = handle
        .send_waiton_ack(&mut connection, "m-1".to_string(), "caller", echo_body(), 0)
        .unwrap();
    assert!(handle.detach(&mut connection));
    assert!(connection.is_pending(&"m-1".to_string()));
    assert_eq!(
        connection.dispatch(ack("m-1")),
        Dispatch::Resolved { sink: "caller", message: ack("m-1") }
    );
}

#[test]
fn echotest_round_trip() {
    let mut connection: JaConnection<&'static str> =
        connect(JaConfig::new("wss://janus.example.org/ws", 32, TransportType::Wss));
    assert_eq!(connection.open(), Ok(()));
    assert_eq!(connection.state(), ConnectionState::Open);

    let create = connection.create_session("t-create".to_string(), "create", 0).unwrap();
    assert_eq!(create, JaRequest::Create { transaction: "t-create".to_string() });
    let session = match connection.dispatch(success("t-create", 5001)) {
        Dispatch::Resolved { sink: "create", message } => {
            JaSession::established(message, 10, 0).unwrap()
        }
        other => panic!("unexpected outcome {:?}", other),
    };
    assert_eq!(session.id(), 5001);
    assert_eq!(session.ka_interval(), 10);

    let attach = session
        .attach(&mut connection, "t-attach".to_string(), "attach", "echotest".to_string(), 1)
        .unwrap();
    assert_eq!(
        attach,
        JaRequest::Attach {
            transaction: "t-attach".to_string(),
            session_id: 5001,
            plugin: "echotest".to_string(),
        }
    );
    let mut attach_reply = success("t-attach", 6002);
    attach_reply.session_id = Some(5001);
    let (handle, receiver) = match connection.dispatch(attach_reply) {
        Dispatch::Resolved { sink: "attach", message } => {
            session.attached(&mut connection, message).unwrap()
        }
        other => panic!("unexpected outcome {:?}", other),
    };
    assert_eq!(handle.id(), 6002);

    let message = handle
        .send_waiton_ack(&mut connection, "t-ack".to_string(), "ack", echo_body(), 2)
        .unwrap();
    assert_eq!(message.request.transaction(), "t-ack");
    let mut ack_reply = ack("t-ack");
    ack_reply.session_id = Some(5001);
    match connection.dispatch(ack_reply) {
        Dispatch::Resolved { sink: "ack", message: reply } => {
            assert!(reply.read(message.expects).is_ok());
        }
        other => panic!("unexpected outcome {:?}", other),
    }

    let negotiate = handle
        .message_with_establishment_protocol(
            &mut connection,
            "t-offer".to_string(),
            "offer",
            echo_body(),
            offer(),
            3,
        )
        .unwrap();
    assert_eq!(
        negotiate,
        Awaited {
            request: JaRequest::Message {
                transaction: "t-offer".to_string(),
                session_id: 5001,
                handle_id: 6002,
                body: echo_body(),
                jsep: Some(offer()),
            },
            expects: Expect::Ack,
        }
    );
    match connection.dispatch(ack("t-offer")) {
        Dispatch::Resolved { sink: "offer", message } => {
            assert_eq!(message.read(negotiate.expects), Ok(Answer::Ack(ack("t-offer"))));
        }
        other => panic!("unexpected outcome {:?}", other),
    }
    let negotiation = JaResponse {
        janus: ResponseType::Event(JaHandleEvent::PluginEvent {
            plugin_data: PluginData { plugin: "janus.plugin.echotest".to_string(), data: echo_body() },
        }),
        transaction: Some("t-offer".to_string()),
        session_id: Some(5001),
        sender: Some(6002),
        establishment_protocol: Some(answer()),
    };
    assert_eq!(
        connection.dispatch(negotiation),
        Dispatch::Event { session_id: 5001, handle_id: 6002 }
    );
    match connection.recv(&receiver) {
        Received::Event(event) => {
            assert!(event.is_media_negotiation());
            assert_eq!(event.establishment_protocol, Some(answer()));
        }
        other => panic!("unexpected outcome {:?}", other),
    }
    assert_eq!(connection.recv(&receiver), Received::Empty);
    assert_eq!(connection.in_flight(), 0);
}

#[test]
fn only_events_with_a_protocol_are_media_negotiations() {
    let mut event = frame(ResponseType::Event(JaHandleEvent::GenericEvent(GenericEvent::Media)), None);
    assert!(!event.is_media_negotiation());
    event.establishment_protocol = Some(answer());
    assert!(event.is_media_negotiation());
    let mut plain = ack("a");
    plain.establishment_protocol = Some(answer());
    assert!(!plain.is_media_negotiation());
}

#[test]
fn a_frame_is_read_as_what_the_caller_expects() {
    assert_eq!(ack("a").read(Expect::Ack), Ok(Answer::Ack(ack("a"))));
    assert_eq!(ack("a").read(Expect::PluginData), Err(JaError::UnexpectedResponse));
    let plugin = || {
        frame(
            ResponseType::Success(JaSuccessProtocol::Plugin {
                plugin_data: PluginData { plugin: "p".to_string(), data: echo_body() },
            }),
            Some("a"),
        )
    };
    assert_eq!(
        plugin().read(Expect::PluginData),
        Ok(Answer::PluginData(PluginData { plugin: "p".to_string(), data: echo_body() }))
    );
    assert_eq!(plugin().read(Expect::Ack), Err(JaError::UnexpectedResponse));
    assert_eq!(
        error("a", 490, "Plugin error").read(Expect::Ack),
        Err(JaError::JanusError { code: 490, reason: "Plugin error".to_string() })
    );
    assert_eq!(
        error("a", 490, "Plugin error").read(Expect::PluginData),
        Err(JaError::JanusError { code: 490, reason: "Plugin error".to_string() })
    );
    assert_eq!(success("a", 1).read(Expect::Ack), Err(JaError::UnexpectedResponse));
    assert_eq!(success("a", 1).read(Expect::PluginData), Err(JaError::UnexpectedResponse));
}

#[test]
fn each_awaited_primitive_says_what_it_expects() {
    let mut connection = open_connection();
    let (_session, handle, _receiver) = attached(&mut connection, 99, 1234);
    let ack_wait = handle
        .send_waiton_ack(&mut connection, "m-1".to_string(), "a", echo_body(), 0)
        .unwrap();
    let result_wait = handle
        .message_with_result(&mut connection, "m-2".to_string(), "b", echo_body(), 0)
        .unwrap();
    let protocol_wait = handle
        .message_with_establishment_protocol(
            &mut connection,
            "m-3".to_string(),
            "c",
            echo_body(),
            offer(),
            0,
        )
        .unwrap();
    assert_eq!(ack_wait.expects, Expect::Ack);
    assert_eq!(result_wait.expects, Expect::PluginData);
    assert_eq!(protocol_wait.expects, Expect::Ack);
    assert_eq!(connection.in_flight(), 3);
}
