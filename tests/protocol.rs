use room_chat::time::{decimal_text, read_utc};
use room_chat::wire::{
    decode_ack, decode_push, decode_request, decode_response, encode_ack, encode_push,
    encode_request, encode_response,
};
use room_chat::{ClientError, ClientRequest, RoomRequest, RoomResponse, ServerResponse, UtcTime};

fn s(x: &str) -> String {
    x.to_string()
}

#[test]
fn request_round_trip_every_variant() {
    let all = vec![
        ClientRequest::Create { id: s("c1") },
        ClientRequest::Connect { id: s("c1"), addr: s("R1") },
        ClientRequest::Disconnect { id: s("c1") },
        ClientRequest::Send { id: s("c1"), msg: s("hé \"quoted\"\n"), date: s("2024-01-01T00:00:00Z") },
    ];
    for m in all {
        assert_eq!(decode_request(&encode_request(&m)), Ok(m));
    }
}

#[test]
fn response_round_trip_every_variant() {
    let all = vec![
        ServerResponse::Success,
        ServerResponse::Error,
        ServerResponse::Create { status: s("ok"), addr: s("R1") },
        ServerResponse::Create { status: s("full"), addr: s("") },
    ];
    for m in all {
        assert_eq!(decode_response(&encode_response(&m)), Ok(m));
    }
}

#[test]
fn push_round_trip_with_and_without_sender() {
    let all = vec![
        RoomRequest::Send { id: Some(s("peer")), msg: s("hi"), addr: s("R1"), date: s("2024-01-01T00:00:00Z") },
        RoomRequest::Send { id: None, msg: s(""), addr: s("R1"), date: s("2024-01-01T00:00:00.5Z") },
    ];
    for m in all {
        assert_eq!(decode_push(&encode_push(&m)), Some(m));
    }
}

#[test]
fn ack_round_trip() {
    assert_eq!(decode_ack(&encode_ack(RoomResponse::Success)), Ok(RoomResponse::Success));
    assert_eq!(decode_ack(&encode_ack(RoomResponse::Error)), Ok(RoomResponse::Error));
}

#[test]
fn encoded_text_is_the_tagged_object() {
    assert_eq!(encode_ack(RoomResponse::Success), br#"{"type":"ok"}"#.to_vec());
    assert_eq!(
        encode_request(&ClientRequest::Create { id: s("c1") }),
        br#"{"id":"c1","type":"create"}"#.to_vec()
    );
    assert_eq!(
        encode_request(&ClientRequest::Connect { id: s("c1"), addr: s("R1") }),
        br#"{"addr":"R1","id":"c1","type":"connect"}"#.to_vec()
    );
}

#[test]
fn decode_reads_what_a_server_writes() {
    assert_eq!(decode_response(br#"{"type":"ok"}"#), Ok(ServerResponse::Success));
    assert_eq!(decode_response(br#"{"type":"error"}"#), Ok(ServerResponse::Error));
    assert_eq!(
        decode_response(br#"{"type":"create","status":"ok","addr":"R1"}"#),
        Ok(ServerResponse::Create { status: s("ok"), addr: s("R1") })
    );
    assert_eq!(
        decode_push(br#"{"type":"send","msg":"hi","addr":"R1","date":"2024-01-01T00:00:00Z"}"#),
        Some(RoomRequest::Send { id: None, msg: s("hi"), addr: s("R1"), date: s("2024-01-01T00:00:00Z") })
    );
}

#[test]
fn malformed_payloads_are_protocol_errors() {
    assert_eq!(decode_response(b"not json"), Err(ClientError::Protocol));
    assert_eq!(decode_response(br#"{"type":"ok""#), Err(ClientError::Protocol));
    assert_eq!(decode_response(br#"{"type":"bogus"}"#), Err(ClientError::Protocol));
    assert_eq!(decode_response(br#"{"status":"ok"}"#), Err(ClientError::Protocol));
    assert_eq!(decode_response(br#"{"type":"create","status":"ok"}"#), Err(ClientError::Protocol));
    assert_eq!(decode_response(b""), Err(ClientError::Protocol));
    assert_eq!(decode_request(br#"{"type":"connect","id":"c1"}"#), Err(ClientError::Protocol));
    assert_eq!(
        decode_request(br#"{"type":"send","id":"c1","msg":"x","date":"yesterday"}"#),
        Err(ClientError::Protocol)
    );
    assert_eq!(decode_ack(br#"{"type":"send"}"#), Err(ClientError::Protocol));
    assert_eq!(decode_push(br#"{"type":"ok"}"#), None);
    assert_eq!(decode_push(br#"{"type":"send","msg":"hi","addr":"R1","date":"never"}"#), None);
}

#[test]
fn dates_are_read_by_chrono() {
    assert_eq!(read_utc(&s("2024-01-01T00:00:00Z")), Some(UtcTime { secs: 1704067200, nanos: 0 }));
    assert_eq!(
        read_utc(&s("2024-01-01T01:00:00.25+01:00")),
        Some(UtcTime { secs: 1704067200, nanos: 250_000_000 })
    );
    assert_eq!(read_utc(&s("2024-13-01T00:00:00Z")), None);
}

#[test]
fn decimal_text_of_integers() {
    assert_eq!(decimal_text(0), "0");
    assert_eq!(decimal_text(7), "7");
    assert_eq!(decimal_text(1704067200), "1704067200");
    assert_eq!(decimal_text(-45), "-45");
    assert_eq!(decimal_text(i64::MIN), "-9223372036854775808");
    assert_eq!(decimal_text(i64::MAX), "9223372036854775807");
}
