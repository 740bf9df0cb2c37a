//! Client-side core of a room chat: the wire codec, the session state
//! machine and the decisions of the background listener. Sockets, threads
//! and the presentation layer belong to the caller; every decision they act
//! on is made here.
use vstd::prelude::*;

pub mod error;
pub mod json;
pub mod listener;
pub mod session;
pub mod time;
pub mod wire;

pub use error::ClientError;
pub use listener::{on_read, ListenerAction, Message};
pub use session::{ClientSession, ConnectionState, MAX_MESSAGE_BYTES};
pub use time::UtcTime;
pub use wire::{ClientRequest, RoomRequest, RoomResponse, ServerResponse};

verus! {

} // verus!
