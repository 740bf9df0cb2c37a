//! The client session: its state machine and the request/reply exchanges
//! that move it. Each operation is split in two: the request to write, and
//! what the single reply read back does to the session. Dialing, writing and
//! reading are the caller's.
use crate::error::ClientError;
use crate::json::json_object_bytes;
use crate::time::now_text;
use crate::wire::{
    decode_response, decoded_response, encode_request, opt_view, request_fields, ClientRequest,
    ClientRequestView, ServerResponse, ServerResponseView,
};
use vstd::prelude::*;

verus! {

/// The longest message text, in bytes.
pub const MAX_MESSAGE_BYTES: usize = 1024;

/// Where the session stands.
#[derive(Clone, Copy, Debug, PartialEq, Eq, Structural)]
pub enum ConnectionState {
    /// No connection.
    Idle,
    /// Connected, and a room was created on it.
    RoomCreated,
    /// The room was joined; a listener reads pushed messages.
    Joined,
}

/// The single session of a client process.
#[derive(Debug)]
pub struct ClientSession {
    /// The identifier that the server attributes this client's messages to.
    pub client_id: String,
    pub state: ConnectionState,
    /// The address of the current room.
    pub room_addr: Option<String>,
}

/// The length of a text in UTF-8 bytes.
pub open spec fn byte_len(s: Seq<char>) -> nat {
    vstd::utf8::encode_utf8(s).len()
}

/// The room address in a reply that reports a created room.
pub open spec fn created_addr(v: Option<ServerResponseView>) -> Option<Seq<char>> {
    match v {
        Some(ServerResponseView::Create { status, addr }) => if status == "ok"@ {
            Some(addr)
        } else {
            None
        },
        _ => None,
    }
}

/// Relies on `uuid::Uuid::new_v4` and its `to_string`: a fresh random
/// identifier; nothing is stated of its value.
#[verifier::external_body]
fn fresh_client_id() -> (r: String) {
    uuid::Uuid::new_v4().to_string()
}

impl ClientSession {
    /// A socket is held exactly while the session is not idle, and a room
    /// address is known exactly then.
    pub open spec fn wf(&self) -> bool {
        self.room_addr is Some <==> self.state != ConnectionState::Idle
    }

    /// A session with a fresh random client identifier.
    pub fn new() -> (r: ClientSession)
        ensures
            r.state == ConnectionState::Idle,
            r.room_addr is None,
            r.wf(),
    {
        ClientSession::with_client_id(fresh_client_id())
    }

    /// An idle session with the given client identifier.
    pub fn with_client_id(client_id: String) -> (r: ClientSession)
        ensures
            r.client_id == client_id,
            r.state == ConnectionState::Idle,
            r.room_addr is None,
            r.wf(),
    {
        ClientSession { client_id, state: ConnectionState::Idle, room_addr: None }
    }

    pub fn state(&self) -> (r: ConnectionState)
        ensures
            r == self.state,
    {
        self.state
    }

    pub fn room_addr(&self) -> (r: Option<&String>)
        ensures
            match r {
                Some(a) => self.room_addr == Some(*a),
                None => self.room_addr is None,
            },
    {
        self.room_addr.as_ref()
    }

    pub fn client_id(&self) -> (r: &String)
        ensures
            *r == self.client_id,
    {
        &self.client_id
    }

    /// The request that creates a room; only an idle session may create one.
    pub fn create_request(&self) -> (r: Result<Vec<u8>, ClientError>)
        ensures
            self.state != ConnectionState::Idle ==> r == Err::<Vec<u8>, ClientError>(
                ClientError::State,
            ),
            self.state == ConnectionState::Idle ==> r is Ok && r->Ok_0@ == json_object_bytes(
                request_fields(ClientRequestView::Create { id: self.client_id@ }),
            ),
    {
        if self.state != ConnectionState::Idle {
            return Err(ClientError::State);
        }
        Ok(encode_request(&ClientRequest::Create { id: self.client_id.clone() }))
    }

    /// Takes the reply to a create request (`None` when dialing, writing or
    /// reading failed). Only a created room with status `ok` moves the
    /// session, to `RoomCreated` with the room's address; the caller then
    /// keeps the socket, and discards it otherwise.
    pub fn finish_create(&mut self, reply: Option<&[u8]>) -> (r: Result<
        ServerResponse,
        ClientError,
    >)
        ensures
            old(self).wf() ==> final(self).wf(),
            final(self).client_id == old(self).client_id,
            old(self).state != ConnectionState::Idle ==> r == Err::<ServerResponse, ClientError>(
                ClientError::State,
            ) && *final(self) == *old(self),
            old(self).state == ConnectionState::Idle ==> match reply {
                None => r == Err::<ServerResponse, ClientError>(ClientError::Connection)
                    && *final(self) == *old(self),
                Some(b) => match created_addr(decoded_response(b@)) {
                    Some(a) => r is Ok && Some(r->Ok_0@) == decoded_response(b@)
                        && final(self).state == ConnectionState::RoomCreated && opt_view(
                        final(self).room_addr,
                    ) == Some(a),
                    None => r == Err::<ServerResponse, ClientError>(ClientError::Protocol)
                        && *final(self) == *old(self),
                },
            },
    {
        if self.state != ConnectionState::Idle {
            return Err(ClientError::State);
        }
        let bytes = match reply {
            None => return Err(ClientError::Connection),
            Some(b) => b,
        };
        let resp = decode_response(bytes)?;
        let addr = match &resp {
            ServerResponse::Create { status, addr } => {
                if *status == "ok".to_owned() {
                    addr.clone()
                } else {
                    return Err(ClientError::Protocol);
                }
            },
            _ => return Err(ClientError::Protocol),
        };
        self.state = ConnectionState::RoomCreated;
        self.room_addr = Some(addr);
        Ok(resp)
    }

    /// The request that joins a room over the connection that created one.
    /// Refused unless a room was created and not yet joined: a join while
    /// joined would start a second listener.
    pub fn join_request(&self, addr: &String) -> (r: Result<Vec<u8>, ClientError>)
        ensures
            self.state != ConnectionState::RoomCreated ==> r == Err::<Vec<u8>, ClientError>(
                ClientError::State,
            ),
            self.state == ConnectionState::RoomCreated ==> r is Ok && r->Ok_0@ == json_object_bytes(
                request_fields(ClientRequestView::Connect { id: self.client_id@, addr: addr@ }),
            ),
    {
        if self.state != ConnectionState::RoomCreated {
            return Err(ClientError::State);
        }
        Ok(encode_request(&ClientRequest::Connect { id: self.client_id.clone(), addr: addr.clone() }))
    }

    /// Takes the reply to a join request. On `ok` the session is `Joined`,
    /// and the caller starts the one listener on a duplicate of the socket;
    /// on anything else the session is unchanged and the join may be retried.
    pub fn finish_join(&mut self, reply: Option<&[u8]>) -> (r: Result<
        ServerResponse,
        ClientError,
    >)
        ensures
            old(self).wf() ==> final(self).wf(),
            final(self).client_id == old(self).client_id,
            final(self).room_addr == old(self).room_addr,
            r is Ok <==> final(self).state == ConnectionState::Joined && old(self).state
                == ConnectionState::RoomCreated,
            r is Ok ==> r->Ok_0 == ServerResponse::Success,
            r is Err ==> *final(self) == *old(self),
            old(self).state != ConnectionState::RoomCreated ==> r == Err::<
                ServerResponse,
                ClientError,
            >(ClientError::State),
            old(self).state == ConnectionState::RoomCreated ==> match reply {
                None => r == Err::<ServerResponse, ClientError>(ClientError::Connection),
                Some(b) => (decoded_response(b@) == Some(ServerResponseView::Success)) == (r is Ok)
                    && (r is Err ==> r == Err::<ServerResponse, ClientError>(
                    ClientError::Protocol,
                )),
            },
    {
        if self.state != ConnectionState::RoomCreated {
            return Err(ClientError::State);
        }
        let bytes = match reply {
            None => return Err(ClientError::Connection),
            Some(b) => b,
        };
        match decode_response(bytes)? {
            ServerResponse::Success => {
                self.state = ConnectionState::Joined;
                Ok(ServerResponse::Success)
            },
            _ => Err(ClientError::Protocol),
        }
    }

    /// The request that leaves the room; refused when idle.
    pub fn leave_request(&self) -> (r: Result<Vec<u8>, ClientError>)
        ensures
            self.state == ConnectionState::Idle ==> r == Err::<Vec<u8>, ClientError>(
                ClientError::State,
            ),
            self.state != ConnectionState::Idle ==> r is Ok && r->Ok_0@ == json_object_bytes(
                request_fields(ClientRequestView::Disconnect { id: self.client_id@ }),
            ),
    {
        if self.state == ConnectionState::Idle {
            return Err(ClientError::State);
        }
        Ok(encode_request(&ClientRequest::Disconnect { id: self.client_id.clone() }))
    }

    /// Takes the reply to a leave request. Whatever the reply, the session
    /// becomes idle with no room, and the caller closes its socket; the
    /// listener, if any, ends when it sees the closed connection.
    pub fn finish_leave(&mut self, reply: Option<&[u8]>) -> (r: Result<
        ServerResponse,
        ClientError,
    >)
        ensures
            old(self).wf() ==> final(self).wf(),
            final(self).client_id == old(self).client_id,
            old(self).state == ConnectionState::Idle ==> r == Err::<ServerResponse, ClientError>(
                ClientError::State,
            ) && *final(self) == *old(self),
            old(self).state != ConnectionState::Idle ==> final(self).state == ConnectionState::Idle
                && final(self).room_addr is None && match reply {
                None => r == Err::<ServerResponse, ClientError>(ClientError::Connection),
                Some(b) => match decoded_response(b@) {
                    Some(v) => r is Ok && r->Ok_0@ == v,
                    None => r == Err::<ServerResponse, ClientError>(ClientError::Protocol),
                },
            },
    {
        if self.state == ConnectionState::Idle {
            return Err(ClientError::State);
        }
        self.state = ConnectionState::Idle;
        self.room_addr = None;
        match reply {
            None => Err(ClientError::Connection),
            Some(b) => decode_response(b),
        }
    }

    /// The request that sends `text` stamped with `date`. Too long a text is
    /// refused first, then any session that has not joined a room.
    pub fn send_request_at(&self, text: &String, date: &String) -> (r: Result<Vec<u8>, ClientError>)
        ensures
            byte_len(text@) > MAX_MESSAGE_BYTES ==> r == Err::<Vec<u8>, ClientError>(
                ClientError::Validation,
            ),
            byte_len(text@) <= MAX_MESSAGE_BYTES && self.state != ConnectionState::Joined ==> r
                == Err::<Vec<u8>, ClientError>(ClientError::State),
            byte_len(text@) <= MAX_MESSAGE_BYTES && self.state == ConnectionState::Joined ==> r is Ok
                && r->Ok_0@ == json_object_bytes(
                request_fields(
                    ClientRequestView::Send { id: self.client_id@, msg: text@, date: date@ },
                ),
            ),
    {
        if text.as_str().as_bytes().len() > MAX_MESSAGE_BYTES {
            return Err(ClientError::Validation);
        }
        if self.state != ConnectionState::Joined {
            return Err(ClientError::State);
        }
        Ok(
            encode_request(
                &ClientRequest::Send { id: self.client_id.clone(), msg: text.clone(), date: date.clone() },
            ),
        )
    }

    /// The request that sends `text` stamped with the current time.
    pub fn send_request(&self, text: &String) -> (r: Result<Vec<u8>, ClientError>)
        ensures
            byte_len(text@) > MAX_MESSAGE_BYTES ==> r == Err::<Vec<u8>, ClientError>(
                ClientError::Validation,
            ),
            byte_len(text@) <= MAX_MESSAGE_BYTES && self.state != ConnectionState::Joined ==> r
                == Err::<Vec<u8>, ClientError>(ClientError::State),
            byte_len(text@) <= MAX_MESSAGE_BYTES && self.state == ConnectionState::Joined ==> r is Ok
                && exists|d: Seq<char>|
                r->Ok_0@ == json_object_bytes(
                    #[trigger] request_fields(
                        ClientRequestView::Send { id: self.client_id@, msg: text@, date: d },
                    ),
                ),
    {
        let date = now_text();
        self.send_request_at(text, &date)
    }

    /// Takes the reply to a sent message and returns it as it came; the
    /// session does not change.
    pub fn finish_send(&self, reply: Option<&[u8]>) -> (r: Result<ServerResponse, ClientError>)
        ensures
            match reply {
                None => r == Err::<ServerResponse, ClientError>(ClientError::Connection),
                Some(b) => match decoded_response(b@) {
                    Some(v) => r is Ok && r->Ok_0@ == v,
                    None => r == Err::<ServerResponse, ClientError>(ClientError::Protocol),
                },
            },
    {
        match reply {
            None => Err(ClientError::Connection),
            Some(b) => decode_response(b),
        }
    }
}

} // verus!
