use room_chat::time::read_utc;
use room_chat::wire::{decode_ack, decode_request, encode_request};
use room_chat::{
    on_read, ClientError, ClientRequest, ClientSession, ConnectionState, ListenerAction, Message,
    RoomResponse, ServerResponse, UtcTime, MAX_MESSAGE_BYTES,
};

fn s(x: &str) -> String {
    x.to_string()
}

fn created(id: &str) -> ClientSession {
    let mut session = ClientSession::with_client_id(s(id));
    let reply = br#"{"type":"create","status":"ok","addr":"R1"}"#;
    session.finish_create(Some(reply)).unwrap();
    session
}

fn joined(id: &str) -> ClientSession {
    let mut session = created(id);
    session.finish_join(Some(br#"{"type":"ok"}"#)).unwrap();
    session
}

#[test]
fn scenario_create_join_send_and_receive() {
    let mut session = ClientSession::with_client_id(s("c1"));
    let request = session.create_request().unwrap();
    assert_eq!(decode_request(&request), Ok(ClientRequest::Create { id: s("c1") }));
    let reply = br#"{"type":"create","status":"ok","addr":"R1"}"#;
    assert_eq!(
        session.finish_create(Some(reply)),
        Ok(ServerResponse::Create { status: s("ok"), addr: s("R1") })
    );
    assert_eq!(session.state(), ConnectionState::RoomCreated);
    assert_eq!(session.room_addr(), Some(&s("R1")));

    let request = session.join_request(&s("R1")).unwrap();
    assert_eq!(decode_request(&request), Ok(ClientRequest::Connect { id: s("c1"), addr: s("R1") }));
    assert_eq!(session.finish_join(Some(br#"{"type":"ok"}"#)), Ok(ServerResponse::Success));
    assert_eq!(session.state(), ConnectionState::Joined);

    let request = session.send_request(&s("hello")).unwrap();
    match decode_request(&request) {
        Ok(ClientRequest::Send { id, msg, date }) => {
            assert_eq!(id, "c1");
            assert_eq!(msg, "hello");
            assert!(read_utc(&date).unwrap().secs > 1704067200);
        }
        other => panic!("unexpected {:?}", other),
    }
    assert_eq!(session.finish_send(Some(br#"{"type":"ok"}"#)), Ok(ServerResponse::Success));

    let long = "x".repeat(1025);
    assert_eq!(session.send_request(&long), Err(ClientError::Validation));

    let push = br#"{"type":"send","msg":"hi","addr":"R1","date":"2024-01-01T00:00:00Z"}"#;
    match on_read(Some(push)) {
        ListenerAction::Deliver { message, ack } => {
            assert_eq!(
                message,
                Message {
                    id: s("1704067200"),
                    content: s("hi"),
                    sender: s(""),
                    timestamp: UtcTime { secs: 1704067200, nanos: 0 },
                }
            );
            assert_eq!(decode_ack(&ack), Ok(RoomResponse::Success));
        }
        other => panic!("unexpected {:?}", other),
    }
}

#[test]
fn send_length_limit_is_inclusive() {
    let session = joined("c1");
    let exact = "a".repeat(MAX_MESSAGE_BYTES);
    let request = session.send_request_at(&exact, &s("2024-01-01T00:00:00Z")).unwrap();
    assert_eq!(
        decode_request(&request),
        Ok(ClientRequest::Send { id: s("c1"), msg: exact, date: s("2024-01-01T00:00:00Z") })
    );
    let over = "a".repeat(MAX_MESSAGE_BYTES + 1);
    assert_eq!(session.send_request_at(&over, &s("2024-01-01T00:00:00Z")), Err(ClientError::Validation));
    // 512 two-byte characters are 1024 bytes; one more is too many.
    assert!(session.send_request(&"é".repeat(512)).is_ok());
    assert_eq!(session.send_request(&"é".repeat(513)), Err(ClientError::Validation));
}

#[test]
fn too_long_text_is_refused_before_the_state_check() {
    let idle = ClientSession::with_client_id(s("c1"));
    assert_eq!(idle.send_request(&"a".repeat(2000)), Err(ClientError::Validation));
}

#[test]
fn idle_session_refuses_send_leave_and_join() {
    let mut idle = ClientSession::with_client_id(s("c1"));
    assert_eq!(idle.send_request(&s("hello")), Err(ClientError::State));
    assert_eq!(idle.leave_request(), Err(ClientError::State));
    assert_eq!(idle.finish_leave(Some(br#"{"type":"ok"}"#)), Err(ClientError::State));
    assert_eq!(idle.join_request(&s("R1")), Err(ClientError::State));
    assert_eq!(idle.finish_join(Some(br#"{"type":"ok"}"#)), Err(ClientError::State));
    assert_eq!(idle.state(), ConnectionState::Idle);
}

#[test]
fn create_is_refused_unless_idle() {
    let mut session = created("c1");
    assert_eq!(session.create_request(), Err(ClientError::State));
    let reply = br#"{"type":"create","status":"ok","addr":"R2"}"#;
    assert_eq!(session.finish_create(Some(reply)), Err(ClientError::State));
    assert_eq!(session.room_addr(), Some(&s("R1")));
    let mut session = joined("c1");
    assert_eq!(session.create_request(), Err(ClientError::State));
    assert_eq!(session.join_request(&s("R1")), Err(ClientError::State));
}

#[test]
fn created_room_must_be_joined_before_sending() {
    let session = created("c1");
    assert_eq!(session.send_request(&s("hello")), Err(ClientError::State));
}

#[test]
fn failed_create_leaves_session_idle() {
    let mut session = ClientSession::with_client_id(s("c1"));
    assert_eq!(session.finish_create(None), Err(ClientError::Connection));
    let refused = br#"{"type":"create","status":"full","addr":"R1"}"#;
    assert_eq!(session.finish_create(Some(refused)), Err(ClientError::Protocol));
    assert_eq!(session.finish_create(Some(br#"{"type":"error"}"#)), Err(ClientError::Protocol));
    assert_eq!(session.finish_create(Some(b"garbage")), Err(ClientError::Protocol));
    assert_eq!(session.state(), ConnectionState::Idle);
    assert_eq!(session.room_addr(), None);
}

#[test]
fn failed_join_can_be_retried() {
    let mut session = created("c1");
    assert_eq!(session.finish_join(Some(br#"{"type":"error"}"#)), Err(ClientError::Protocol));
    assert_eq!(session.finish_join(None), Err(ClientError::Connection));
    assert_eq!(session.state(), ConnectionState::RoomCreated);
    assert_eq!(session.finish_join(Some(br#"{"type":"ok"}"#)), Ok(ServerResponse::Success));
    assert_eq!(session.state(), ConnectionState::Joined);
}

#[test]
fn leave_clears_the_room_whatever_the_reply() {
    let mut session = joined("c1");
    let request = session.leave_request().unwrap();
    assert_eq!(decode_request(&request), Ok(ClientRequest::Disconnect { id: s("c1") }));
    assert_eq!(session.finish_leave(Some(br#"{"type":"error"}"#)), Ok(ServerResponse::Error));
    assert_eq!(session.state(), ConnectionState::Idle);
    assert_eq!(session.room_addr(), None);

    let mut session = created("c1");
    assert_eq!(session.finish_leave(Some(b"garbage")), Err(ClientError::Protocol));
    assert_eq!(session.state(), ConnectionState::Idle);
    assert_eq!(session.room_addr(), None);

    let mut session = joined("c1");
    assert_eq!(session.finish_leave(None), Err(ClientError::Connection));
    assert_eq!(session.state(), ConnectionState::Idle);
}

#[test]
fn send_reply_is_returned_verbatim() {
    let session = joined("c1");
    assert_eq!(session.finish_send(Some(br#"{"type":"error"}"#)), Ok(ServerResponse::Error));
    assert_eq!(session.finish_send(Some(b"{")), Err(ClientError::Protocol));
    assert_eq!(session.finish_send(None), Err(ClientError::Connection));
    assert_eq!(session.state(), ConnectionState::Joined);
}

#[test]
fn fresh_sessions_get_distinct_identifiers() {
    let a = ClientSession::new();
    let b = ClientSession::new();
    assert_eq!(a.state(), ConnectionState::Idle);
    assert_ne!(a.client_id(), b.client_id());
    assert_eq!(a.client_id().len(), 36);
}

#[test]
fn listener_stops_on_close_or_error() {
    assert_eq!(on_read(None), ListenerAction::Stop);
    assert_eq!(on_read(Some(&[])), ListenerAction::Stop);
}

#[test]
fn listener_skips_what_is_not_a_push() {
    assert_eq!(on_read(Some(b"garbage")), ListenerAction::Skip);
    assert_eq!(on_read(Some(br#"{"type":"ok"}"#)), ListenerAction::Skip);
}

#[test]
fn listener_names_the_sender() {
    let push = br#"{"type":"send","id":"peer","msg":"yo","addr":"R1","date":"1970-01-01T00:00:05.5Z"}"#;
    match on_read(Some(push)) {
        ListenerAction::Deliver { message, .. } => {
            assert_eq!(message.sender, "peer");
            assert_eq!(message.id, "5");
            assert_eq!(message.timestamp, UtcTime { secs: 5, nanos: 500_000_000 });
        }
        other => panic!("unexpected {:?}", other),
    }
}

#[test]
fn encoded_requests_carry_the_client_id() {
    let session = ClientSession::with_client_id(s("abc"));
    assert_eq!(session.create_request(), Ok(encode_request(&ClientRequest::Create { id: s("abc") })));
}
