//! The decisions of the background listener: what to do with each read
//! from the joined connection.
use crate::json::json_object_bytes;
use crate::time::{decimal_of, decimal_text, parsed_utc, read_utc, UtcTime};
use crate::wire::{
    ack_fields, decode_push, decoded_push, encode_ack, RoomRequest, RoomRequestView, RoomResponse,
};
use vstd::prelude::*;

verus! {

/// A chat message handed to the presentation layer.
#[derive(Clone, Debug, PartialEq, Eq)]
pub struct Message {
    /// The decimal seconds of the sender's timestamp.
    pub id: String,
    pub content: String,
    /// The sender's client identifier; empty when the push names none.
    pub sender: String,
    pub timestamp: UtcTime,
}

pub struct MessageView {
    pub id: Seq<char>,
    pub content: Seq<char>,
    pub sender: Seq<char>,
    pub timestamp: UtcTime,
}

impl View for Message {
    type V = MessageView;

    open spec fn view(&self) -> MessageView {
        MessageView {
            id: self.id@,
            content: self.content@,
            sender: self.sender@,
            timestamp: self.timestamp,
        }
    }
}

/// The message that a push carries, when its date is one chrono reads.
pub open spec fn message_of(p: RoomRequestView) -> Option<MessageView> {
    match p {
        RoomRequestView::Send { id, msg, addr, date } => match parsed_utc(date) {
            None => None,
            Some(t) => Some(
                MessageView {
                    id: decimal_of(t.0 as int),
                    content: msg,
                    sender: match id {
                        Some(s) => s,
                        None => Seq::empty(),
                    },
                    timestamp: UtcTime { secs: t.0, nanos: t.1 },
                },
            ),
        },
    }
}

/// Builds the message that a push carries.
pub fn message_of_push(push: &RoomRequest) -> (r: Option<Message>)
    ensures
        match message_of(push@) {
            None => r is None,
            Some(m) => r is Some && r->Some_0@ == m,
        },
{
    match push {
        RoomRequest::Send { id, msg, addr: _, date } => {
            let t = match read_utc(date) {
                Some(t) => t,
                None => return None,
            };
            let sender = match id {
                Some(s) => s.clone(),
                None => String::new(),
            };
            Some(Message { id: decimal_text(t.secs), content: msg.clone(), sender, timestamp: t })
        },
    }
}

/// What the listener does after one read.
#[derive(Debug, PartialEq, Eq)]
pub enum ListenerAction {
    /// The connection is closed or failed: the listener ends.
    Stop,
    /// The bytes hold no push: drop them and read again, sending nothing.
    Skip,
    /// Hand the message to the sink, write the acknowledgement, read again.
    Deliver { message: Message, ack: Vec<u8> },
}

/// Decides on one read: `None` for a failed read, else the bytes read (none
/// when the peer closed the connection).
pub fn on_read(read: Option<&[u8]>) -> (r: ListenerAction)
    ensures
        match read {
            None => r is Stop,
            Some(b) => if b@.len() == 0 {
                r is Stop
            } else {
                match decoded_push(b@) {
                    None => r is Skip,
                    Some(p) => match r {
                        ListenerAction::Deliver { message, ack } => message_of(p) == Some(
                            message@,
                        ) && ack@ == json_object_bytes(ack_fields(RoomResponse::Success)),
                        _ => false,
                    },
                }
            },
        },
{
    let bytes = match read {
        None => return ListenerAction::Stop,
        Some(b) => b,
    };
    if bytes.len() == 0 {
        return ListenerAction::Stop;
    }
    let push = match decode_push(bytes) {
        None => return ListenerAction::Skip,
        Some(p) => p,
    };
    match message_of_push(&push) {
        Some(message) => ListenerAction::Deliver { message, ack: encode_ack(RoomResponse::Success) },
        None => ListenerAction::Skip,
    }
}

} // verus!
