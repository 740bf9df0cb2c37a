//! The messages of the chat protocol and their JSON form. Every message is a
//! flat JSON object whose `type` field names its kind.
use crate::error::ClientError;
use crate::json::{
    field, fields_of, json_object_bytes, keys_distinct, pairs_view, parsed_json_object,
    push_field, read_object, write_object, Fields,
};
use crate::time::{parse_utc, parsed_utc};
use vstd::prelude::*;

verus! {

/// A request from the client to the server.
#[derive(Clone, Debug, PartialEq, Eq)]
pub enum ClientRequest {
    Create { id: String },
    Connect { id: String, addr: String },
    Disconnect { id: String },
    Send { id: String, msg: String, date: String },
}

/// A reply from the server to a client request.
#[derive(Clone, Debug, PartialEq, Eq)]
pub enum ServerResponse {
    Success,
    Error,
    Create { status: String, addr: String },
}

/// A message that the server pushes to the members of a room.
#[derive(Clone, Debug, PartialEq, Eq)]
pub enum RoomRequest {
    Send { id: Option<String>, msg: String, addr: String, date: String },
}

/// The client's acknowledgement of a pushed message.
#[derive(Clone, Copy, Debug, PartialEq, Eq, Structural)]
pub enum RoomResponse {
    Success,
    Error,
}

pub enum ClientRequestView {
    Create { id: Seq<char> },
    Connect { id: Seq<char>, addr: Seq<char> },
    Disconnect { id: Seq<char> },
    Send { id: Seq<char>, msg: Seq<char>, date: Seq<char> },
}

pub enum ServerResponseView {
    Success,
    Error,
    Create { status: Seq<char>, addr: Seq<char> },
}

pub enum RoomRequestView {
    Send { id: Option<Seq<char>>, msg: Seq<char>, addr: Seq<char>, date: Seq<char> },
}

impl View for ClientRequest {
    type V = ClientRequestView;

    open spec fn view(&self) -> ClientRequestView {
        match self {
            ClientRequest::Create { id } => ClientRequestView::Create { id: id@ },
            ClientRequest::Connect { id, addr } => ClientRequestView::Connect {
                id: id@,
                addr: addr@,
            },
            ClientRequest::Disconnect { id } => ClientRequestView::Disconnect { id: id@ },
            ClientRequest::Send { id, msg, date } => ClientRequestView::Send {
                id: id@,
                msg: msg@,
                date: date@,
            },
        }
    }
}

impl View for ServerResponse {
    type V = ServerResponseView;

    open spec fn view(&self) -> ServerResponseView {
        match self {
            ServerResponse::Success => ServerResponseView::Success,
            ServerResponse::Error => ServerResponseView::Error,
            ServerResponse::Create { status, addr } => ServerResponseView::Create {
                status: status@,
                addr: addr@,
            },
        }
    }
}

pub open spec fn opt_view(o: Option<String>) -> Option<Seq<char>> {
    match o {
        Some(s) => Some(s@),
        None => None,
    }
}

impl View for RoomRequest {
    type V = RoomRequestView;

    open spec fn view(&self) -> RoomRequestView {
        match self {
            RoomRequest::Send { id, msg, addr, date } => RoomRequestView::Send {
                id: opt_view(*id),
                msg: msg@,
                addr: addr@,
                date: date@,
            },
        }
    }
}

// ---- the object of each message ----

/// The fields of a client request on the wire.
pub open spec fn request_fields(m: ClientRequestView) -> Fields {
    match m {
        ClientRequestView::Create { id } => Map::empty().insert("type"@, "create"@).insert(
            "id"@,
            id,
        ),
        ClientRequestView::Connect { id, addr } => Map::empty().insert(
            "type"@,
            "connect"@,
        ).insert("id"@, id).insert("addr"@, addr),
        ClientRequestView::Disconnect { id } => Map::empty().insert(
            "type"@,
            "disconnect"@,
        ).insert("id"@, id),
        ClientRequestView::Send { id, msg, date } => Map::empty().insert(
            "type"@,
            "send"@,
        ).insert("id"@, id).insert("msg"@, msg).insert("date"@, date),
    }
}

/// The fields of a server response on the wire.
pub open spec fn response_fields(m: ServerResponseView) -> Fields {
    match m {
        ServerResponseView::Success => Map::empty().insert("type"@, "ok"@),
        ServerResponseView::Error => Map::empty().insert("type"@, "error"@),
        ServerResponseView::Create { status, addr } => Map::empty().insert(
            "type"@,
            "create"@,
        ).insert("status"@, status).insert("addr"@, addr),
    }
}

/// The fields of a room push on the wire; the sender's `id` only when known.
pub open spec fn push_fields(m: RoomRequestView) -> Fields {
    match m {
        RoomRequestView::Send { id, msg, addr, date } => {
            let base = Map::empty().insert("type"@, "send"@).insert("msg"@, msg).insert(
                "addr"@,
                addr,
            ).insert("date"@, date);
            match id {
                Some(i) => base.insert("id"@, i),
                None => base,
            }
        },
    }
}

/// The fields of an acknowledgement on the wire.
pub open spec fn ack_fields(m: RoomResponse) -> Fields {
    match m {
        RoomResponse::Success => Map::empty().insert("type"@, "ok"@),
        RoomResponse::Error => Map::empty().insert("type"@, "error"@),
    }
}

// ---- reading each message from its object ----

/// The client request that an object holds; unknown fields are ignored.
pub open spec fn request_of(f: Fields) -> Option<ClientRequestView> {
    if !f.contains_key("type"@) {
        None
    } else if f["type"@] == "create"@ {
        if f.contains_key("id"@) {
            Some(ClientRequestView::Create { id: f["id"@] })
        } else {
            None
        }
    } else if f["type"@] == "connect"@ {
        if f.contains_key("id"@) && f.contains_key("addr"@) {
            Some(ClientRequestView::Connect { id: f["id"@], addr: f["addr"@] })
        } else {
            None
        }
    } else if f["type"@] == "disconnect"@ {
        if f.contains_key("id"@) {
            Some(ClientRequestView::Disconnect { id: f["id"@] })
        } else {
            None
        }
    } else if f["type"@] == "send"@ {
        if f.contains_key("id"@) && f.contains_key("msg"@) && f.contains_key("date"@)
            && parsed_utc(f["date"@]) is Some {
            Some(ClientRequestView::Send { id: f["id"@], msg: f["msg"@], date: f["date"@] })
        } else {
            None
        }
    } else {
        None
    }
}

/// The server response that an object holds.
pub open spec fn response_of(f: Fields) -> Option<ServerResponseView> {
    if !f.contains_key("type"@) {
        None
    } else if f["type"@] == "ok"@ {
        Some(ServerResponseView::Success)
    } else if f["type"@] == "error"@ {
        Some(ServerResponseView::Error)
    } else if f["type"@] == "create"@ {
        if f.contains_key("status"@) && f.contains_key("addr"@) {
            Some(ServerResponseView::Create { status: f["status"@], addr: f["addr"@] })
        } else {
            None
        }
    } else {
        None
    }
}

/// The room push that an object holds.
pub open spec fn push_of(f: Fields) -> Option<RoomRequestView> {
    if f.contains_key("type"@) && f["type"@] == "send"@ && f.contains_key("msg"@)
        && f.contains_key("addr"@) && f.contains_key("date"@) && parsed_utc(f["date"@]) is Some {
        Some(
            RoomRequestView::Send {
                id: if f.contains_key("id"@) {
                    Some(f["id"@])
                } else {
                    None
                },
                msg: f["msg"@],
                addr: f["addr"@],
                date: f["date"@],
            },
        )
    } else {
        None
    }
}

/// The acknowledgement that an object holds.
pub open spec fn ack_of(f: Fields) -> Option<RoomResponse> {
    if !f.contains_key("type"@) {
        None
    } else if f["type"@] == "ok"@ {
        Some(RoomResponse::Success)
    } else if f["type"@] == "error"@ {
        Some(RoomResponse::Error)
    } else {
        None
    }
}

/// A request that can travel: its date, if any, is one chrono reads.
pub open spec fn request_valid(m: ClientRequestView) -> bool {
    match m {
        ClientRequestView::Send { date, .. } => parsed_utc(date) is Some,
        _ => true,
    }
}

/// A push that can travel: its date is one chrono reads.
pub open spec fn push_valid(m: RoomRequestView) -> bool {
    match m {
        RoomRequestView::Send { date, .. } => parsed_utc(date) is Some,
    }
}

pub open spec fn decoded_request(b: Seq<u8>) -> Option<ClientRequestView> {
    match parsed_json_object(b) {
        Some(f) => request_of(f),
        None => None,
    }
}

pub open spec fn decoded_response(b: Seq<u8>) -> Option<ServerResponseView> {
    match parsed_json_object(b) {
        Some(f) => response_of(f),
        None => None,
    }
}

pub open spec fn decoded_push(b: Seq<u8>) -> Option<RoomRequestView> {
    match parsed_json_object(b) {
        Some(f) => push_of(f),
        None => None,
    }
}

pub open spec fn decoded_ack(b: Seq<u8>) -> Option<RoomResponse> {
    match parsed_json_object(b) {
        Some(f) => ack_of(f),
        None => None,
    }
}

proof fn reveal_words()
    ensures
        "type"@ =~= seq!['t', 'y', 'p', 'e'],
        "id"@ =~= seq!['i', 'd'],
        "addr"@ =~= seq!['a', 'd', 'd', 'r'],
        "msg"@ =~= seq!['m', 's', 'g'],
        "date"@ =~= seq!['d', 'a', 't', 'e'],
        "status"@ =~= seq!['s', 't', 'a', 't', 'u', 's'],
        "create"@ =~= seq!['c', 'r', 'e', 'a', 't', 'e'],
        "connect"@ =~= seq!['c', 'o', 'n', 'n', 'e', 'c', 't'],
        "disconnect"@ =~= seq!['d', 'i', 's', 'c', 'o', 'n', 'n', 'e', 'c', 't'],
        "send"@ =~= seq!['s', 'e', 'n', 'd'],
        "ok"@ =~= seq!['o', 'k'],
        "error"@ =~= seq!['e', 'r', 'r', 'o', 'r'],
        "type"@ != "addr"@,
        "type"@ != "date"@,
        "addr"@ != "date"@,
        "type"@ != "send"@,
        "addr"@ != "send"@,
        "date"@ != "send"@,
{
    reveal_strlit("type");
    reveal_strlit("id");
    reveal_strlit("addr");
    reveal_strlit("msg");
    reveal_strlit("date");
    reveal_strlit("status");
    reveal_strlit("create");
    reveal_strlit("connect");
    reveal_strlit("disconnect");
    reveal_strlit("send");
    reveal_strlit("ok");
    reveal_strlit("error");
    assert("type"@[0] != "addr"@[0]);
    assert("type"@[0] != "date"@[0]);
    assert("addr"@[0] != "date"@[0]);
    assert("type"@[0] != "send"@[0]);
    assert("addr"@[0] != "send"@[0]);
    assert("date"@[0] != "send"@[0]);
}

/// Reading a client request back from its own fields gives the request again.
pub proof fn lemma_request_round_trip(m: ClientRequestView)
    requires
        request_valid(m),
    ensures
        request_of(request_fields(m)) == Some(m),
        request_fields(m).dom().finite(),
{
    reveal_words();
}

/// Reading a server response back from its own fields gives the response again.
pub proof fn lemma_response_round_trip(m: ServerResponseView)
    ensures
        response_of(response_fields(m)) == Some(m),
        response_fields(m).dom().finite(),
{
    reveal_words();
}

/// Reading a room push back from its own fields gives the push again.
pub proof fn lemma_push_round_trip(m: RoomRequestView)
    requires
        push_valid(m),
    ensures
        push_of(push_fields(m)) == Some(m),
        push_fields(m).dom().finite(),
{
    reveal_words();
}

/// Reading an acknowledgement back from its own fields gives it again.
pub proof fn lemma_ack_round_trip(m: RoomResponse)
    ensures
        ack_of(ack_fields(m)) == Some(m),
        ack_fields(m).dom().finite(),
{
    reveal_words();
}

fn empty_fields() -> (r: Vec<(String, String)>)
    ensures
        keys_distinct(pairs_view(r@)),
        fields_of(pairs_view(r@)) == Map::<Seq<char>, Seq<char>>::empty(),
{
    let r: Vec<(String, String)> = Vec::new();
    assert(fields_of(pairs_view(r@)) =~= Map::<Seq<char>, Seq<char>>::empty());
    r
}

/// The bytes of a client request.
pub fn encode_request(m: &ClientRequest) -> (r: Vec<u8>)
    ensures
        r@ == json_object_bytes(request_fields(m@)),
{
    proof {
        reveal_words();
    }
    let mut pairs = empty_fields();
    match m {
        ClientRequest::Create { id } => {
            push_field(&mut pairs, "type", "create".to_owned());
            push_field(&mut pairs, "id", id.clone());
        },
        ClientRequest::Connect { id, addr } => {
            push_field(&mut pairs, "type", "connect".to_owned());
            push_field(&mut pairs, "id", id.clone());
            push_field(&mut pairs, "addr", addr.clone());
        },
        ClientRequest::Disconnect { id } => {
            push_field(&mut pairs, "type", "disconnect".to_owned());
            push_field(&mut pairs, "id", id.clone());
        },
        ClientRequest::Send { id, msg, date } => {
            push_field(&mut pairs, "type", "send".to_owned());
            push_field(&mut pairs, "id", id.clone());
            push_field(&mut pairs, "msg", msg.clone());
            push_field(&mut pairs, "date", date.clone());
        },
    }
    write_object(&pairs)
}

/// The bytes of a server response.
pub fn encode_response(m: &ServerResponse) -> (r: Vec<u8>)
    ensures
        r@ == json_object_bytes(response_fields(m@)),
{
    proof {
        reveal_words();
    }
    let mut pairs = empty_fields();
    match m {
        ServerResponse::Success => {
            push_field(&mut pairs, "type", "ok".to_owned());
        },
        ServerResponse::Error => {
            push_field(&mut pairs, "type", "error".to_owned());
        },
        ServerResponse::Create { status, addr } => {
            push_field(&mut pairs, "type", "create".to_owned());
            push_field(&mut pairs, "status", status.clone());
            push_field(&mut pairs, "addr", addr.clone());
        },
    }
    write_object(&pairs)
}

/// The bytes of a room push.
pub fn encode_push(m: &RoomRequest) -> (r: Vec<u8>)
    ensures
        r@ == json_object_bytes(push_fields(m@)),
{
    proof {
        reveal_words();
    }
    let mut pairs = empty_fields();
    match m {
        RoomRequest::Send { id, msg, addr, date } => {
            push_field(&mut pairs, "type", "send".to_owned());
            push_field(&mut pairs, "msg", msg.clone());
            push_field(&mut pairs, "addr", addr.clone());
            push_field(&mut pairs, "date", date.clone());
            match id {
                Some(i) => {
                    push_field(&mut pairs, "id", i.clone());
                },
                None => {},
            }
        },
    }
    write_object(&pairs)
}

/// The bytes of an acknowledgement.
pub fn encode_ack(m: RoomResponse) -> (r: Vec<u8>)
    ensures
        r@ == json_object_bytes(ack_fields(m)),
{
    proof {
        reveal_words();
    }
    let mut pairs = empty_fields();
    match m {
        RoomResponse::Success => {
            push_field(&mut pairs, "type", "ok".to_owned());
        },
        RoomResponse::Error => {
            push_field(&mut pairs, "type", "error".to_owned());
        },
    }
    write_object(&pairs)
}

fn get(pairs: &Vec<(String, String)>, key: &str) -> (r: Option<String>)
    requires
        keys_distinct(pairs_view(pairs@)),
    ensures
        match r {
            None => !fields_of(pairs_view(pairs@)).contains_key(key@),
            Some(v) => fields_of(pairs_view(pairs@)).contains_key(key@) && fields_of(
                pairs_view(pairs@),
            )[key@] == v@,
        },
{
    field(pairs, &key.to_owned())
}

fn is_word(s: &String, w: &str) -> (r: bool)
    ensures
        r == (s@ == w@),
{
    *s == w.to_owned()
}

fn has_date(date: &String) -> (r: bool)
    ensures
        r == (parsed_utc(date@) is Some),
{
    match parse_utc(date.as_str()) {
        Some(_) => true,
        None => false,
    }
}

fn request_from_pairs(pairs: &Vec<(String, String)>) -> (r: Result<ClientRequest, ClientError>)
    requires
        keys_distinct(pairs_view(pairs@)),
    ensures
        match request_of(fields_of(pairs_view(pairs@))) {
            Some(v) => r is Ok && r->Ok_0@ == v,
            None => r == Err::<ClientRequest, ClientError>(ClientError::Protocol),
        },
{
    let tag = match get(pairs, "type") {
        Some(t) => t,
        None => return Err(ClientError::Protocol),
    };
    if is_word(&tag, "create") {
        match get(pairs, "id") {
            Some(id) => Ok(ClientRequest::Create { id }),
            None => Err(ClientError::Protocol),
        }
    } else if is_word(&tag, "connect") {
        let id = match get(pairs, "id") {
            Some(x) => x,
            None => return Err(ClientError::Protocol),
        };
        match get(pairs, "addr") {
            Some(addr) => Ok(ClientRequest::Connect { id, addr }),
            None => Err(ClientError::Protocol),
        }
    } else if is_word(&tag, "disconnect") {
        match get(pairs, "id") {
            Some(id) => Ok(ClientRequest::Disconnect { id }),
            None => Err(ClientError::Protocol),
        }
    } else if is_word(&tag, "send") {
        let id = match get(pairs, "id") {
            Some(x) => x,
            None => return Err(ClientError::Protocol),
        };
        let msg = match get(pairs, "msg") {
            Some(x) => x,
            None => return Err(ClientError::Protocol),
        };
        let date = match get(pairs, "date") {
            Some(x) => x,
            None => return Err(ClientError::Protocol),
        };
        if has_date(&date) {
            Ok(ClientRequest::Send { id, msg, date })
        } else {
            Err(ClientError::Protocol)
        }
    } else {
        Err(ClientError::Protocol)
    }
}

/// Reads a client request; anything else is a protocol error.
pub fn decode_request(bytes: &[u8]) -> (r: Result<ClientRequest, ClientError>)
    ensures
        match decoded_request(bytes@) {
            Some(v) => r is Ok && r->Ok_0@ == v,
            None => r == Err::<ClientRequest, ClientError>(ClientError::Protocol),
        },
        forall|v: ClientRequestView|
            request_valid(v) && #[trigger] json_object_bytes(request_fields(v)) == bytes@ ==> (r is Ok
                && r->Ok_0@ == v),
{
    let pairs = match read_object(bytes) {
        Some(p) => p,
        None => {
            proof {
                assert forall|v: ClientRequestView|
                    request_valid(v) && #[trigger] json_object_bytes(request_fields(v))
                        == bytes@ implies false by {
                    lemma_request_round_trip(v);
                }
            }
            return Err(ClientError::Protocol);
        },
    };
    let r = request_from_pairs(&pairs);
    proof {
        assert forall|v: ClientRequestView|
            request_valid(v) && #[trigger] json_object_bytes(request_fields(v)) == bytes@ implies (
            r is Ok && r->Ok_0@ == v) by {
            lemma_request_round_trip(v);
        }
    }
    r
}

fn response_from_pairs(pairs: &Vec<(String, String)>) -> (r: Result<ServerResponse, ClientError>)
    requires
        keys_distinct(pairs_view(pairs@)),
    ensures
        match response_of(fields_of(pairs_view(pairs@))) {
            Some(v) => r is Ok && r->Ok_0@ == v,
            None => r == Err::<ServerResponse, ClientError>(ClientError::Protocol),
        },
{
    let tag = match get(pairs, "type") {
        Some(t) => t,
        None => return Err(ClientError::Protocol),
    };
    if is_word(&tag, "ok") {
        Ok(ServerResponse::Success)
    } else if is_word(&tag, "error") {
        Ok(ServerResponse::Error)
    } else if is_word(&tag, "create") {
        let status = match get(pairs, "status") {
            Some(x) => x,
            None => return Err(ClientError::Protocol),
        };
        match get(pairs, "addr") {
            Some(addr) => Ok(ServerResponse::Create { status, addr }),
            None => Err(ClientError::Protocol),
        }
    } else {
        Err(ClientError::Protocol)
    }
}

/// Reads a server response; anything else is a protocol error.
pub fn decode_response(bytes: &[u8]) -> (r: Result<ServerResponse, ClientError>)
    ensures
        match decoded_response(bytes@) {
            Some(v) => r is Ok && r->Ok_0@ == v,
            None => r == Err::<ServerResponse, ClientError>(ClientError::Protocol),
        },
        forall|v: ServerResponseView| #[trigger]
            json_object_bytes(response_fields(v)) == bytes@ ==> (r is Ok && r->Ok_0@ == v),
{
    let pairs = match read_object(bytes) {
        Some(p) => p,
        None => {
            proof {
                assert forall|v: ServerResponseView| #[trigger]
                    json_object_bytes(response_fields(v)) == bytes@ implies false by {
                    lemma_response_round_trip(v);
                }
            }
            return Err(ClientError::Protocol);
        },
    };
    let r = response_from_pairs(&pairs);
    proof {
        assert forall|v: ServerResponseView| #[trigger]
            json_object_bytes(response_fields(v)) == bytes@ implies (r is Ok && r->Ok_0@ == v) by {
            lemma_response_round_trip(v);
        }
    }
    r
}

fn push_from_pairs(pairs: &Vec<(String, String)>) -> (r: Option<RoomRequest>)
    requires
        keys_distinct(pairs_view(pairs@)),
    ensures
        match push_of(fields_of(pairs_view(pairs@))) {
            Some(v) => r is Some && r->Some_0@ == v,
            None => r is None,
        },
{
    let tag = match get(pairs, "type") {
        Some(t) => t,
        None => return None,
    };
    if !is_word(&tag, "send") {
        return None;
    }
    let msg = match get(pairs, "msg") {
        Some(x) => x,
        None => return None,
    };
    let addr = match get(pairs, "addr") {
        Some(x) => x,
        None => return None,
    };
    let date = match get(pairs, "date") {
        Some(x) => x,
        None => return None,
    };
    if !has_date(&date) {
        return None;
    }
    let id = get(pairs, "id");
    Some(RoomRequest::Send { id, msg, addr, date })
}

/// Reads a room push; `None` when the bytes hold none.
pub fn decode_push(bytes: &[u8]) -> (r: Option<RoomRequest>)
    ensures
        match decoded_push(bytes@) {
            Some(v) => r is Some && r->Some_0@ == v,
            None => r is None,
        },
        forall|v: RoomRequestView|
            push_valid(v) && #[trigger] json_object_bytes(push_fields(v)) == bytes@ ==> (r is Some
                && r->Some_0@ == v),
{
    let pairs = match read_object(bytes) {
        Some(p) => p,
        None => {
            proof {
                assert forall|v: RoomRequestView|
                    push_valid(v) && #[trigger] json_object_bytes(push_fields(v))
                        == bytes@ implies false by {
                    lemma_push_round_trip(v);
                }
            }
            return None;
        },
    };
    let r = push_from_pairs(&pairs);
    proof {
        assert forall|v: RoomRequestView|
            push_valid(v) && #[trigger] json_object_bytes(push_fields(v)) == bytes@ implies (
            r is Some && r->Some_0@ == v) by {
            lemma_push_round_trip(v);
        }
    }
    r
}

/// Reads an acknowledgement; anything else is a protocol error.
pub fn decode_ack(bytes: &[u8]) -> (r: Result<RoomResponse, ClientError>)
    ensures
        match decoded_ack(bytes@) {
            Some(v) => r == Ok::<RoomResponse, ClientError>(v),
            None => r == Err::<RoomResponse, ClientError>(ClientError::Protocol),
        },
        forall|v: RoomResponse| #[trigger]
            json_object_bytes(ack_fields(v)) == bytes@ ==> r == Ok::<RoomResponse, ClientError>(v),
{
    let pairs = match read_object(bytes) {
        Some(p) => p,
        None => {
            proof {
                assert forall|v: RoomResponse| #[trigger]
                    json_object_bytes(ack_fields(v)) == bytes@ implies false by {
                    lemma_ack_round_trip(v);
                }
            }
            return Err(ClientError::Protocol);
        },
    };
    let tag = match get(&pairs, "type") {
        Some(t) => t,
        None => return Err(ClientError::Protocol),
    };
    proof {
        assert forall|v: RoomResponse| #[trigger]
            json_object_bytes(ack_fields(v)) == bytes@ implies fields_of(pairs_view(pairs@))
            == ack_fields(v) by {}
        assert forall|v: RoomResponse| #[trigger]
            json_object_bytes(ack_fields(v)) == bytes@ implies ack_of(fields_of(pairs_view(pairs@)))
            == Some(v) by {
            lemma_ack_round_trip(v);
        }
    }
    if is_word(&tag, "ok") {
        Ok(RoomResponse::Success)
    } else if is_word(&tag, "error") {
        Ok(RoomResponse::Error)
    } else {
        Err(ClientError::Protocol)
    }
}

} // verus!
