//! # Server
//!
//! The host of a universe and of the worlds where players (clients) play together.
use vstd::prelude::*;
use vstd::std_specs::cmp::PartialEqSpecImpl;
use crate::server::messages::{ServerConnectionMessage, ServerMessage, ServerWorldMessage};

/// Messages the server sends to its clients.
pub mod messages;

verus! {

/// What a client tells about itself when it connects.
#[derive(Debug, Hash)]
pub struct ClientInfo {
    pub id: String,
}

impl Clone for ClientInfo {
    fn clone(&self) -> (r: Self)
        ensures
            r == *self,
    {
        ClientInfo { id: self.id.clone() }
    }
}

/// Two clients are the same client when their identifiers are equal.
impl PartialEq for ClientInfo {
    fn eq(&self, other: &Self) -> (r: bool) {
        self.id == other.id
    }
}

impl PartialEqSpecImpl for ClientInfo {
    open spec fn obeys_eq_spec() -> bool {
        true
    }

    open spec fn eq_spec(&self, other: &Self) -> bool {
        self.id@ == other.id@
    }
}

impl Eq for ClientInfo {}

/// A server that is hosted somewhere else.
#[derive(Debug)]
pub struct RemoteServer {}

/// Why a connection to a remote server failed.
#[derive(Debug)]
pub enum RemoteConnectionError {
    Unknown,
}

/// The server's replies to a client whose connection it accepts, in the order they are
/// sent: the acknowledgement, then entering the "default" world.
pub fn connection_accepted_replies() -> (r: Vec<ServerMessage>)
    ensures
        r@.len() == 2,
        r@[0] matches ServerMessage::Connection(ServerConnectionMessage::Connect {}),
        r@[1] matches ServerMessage::World(ServerWorldMessage::EnterWorld { id }) && id@ == "default"@,
{
    let mut replies: Vec<ServerMessage> = Vec::new();
    replies.push(ServerMessage::Connection(ServerConnectionMessage::Connect {}));
    replies.push(ServerMessage::World(ServerWorldMessage::EnterWorld { id: "default".to_string() }));
    replies
}

} // verus!
