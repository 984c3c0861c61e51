//! Commands a client can send, and the replies to them.

pub mod status;

use vstd::prelude::*;

use crate::command::status::StatusReply;

verus! {

/// A command we receive from a client.
#[derive(Debug)]
pub enum Command {
    /// Return the current status of the server.
    Status,
}

impl Command {
    /// Get a reply from a command.
    pub fn reply(&self) -> (res: StatusReply)
        ensures
            res.message_bytes() == seq![0x6fu8, 0x6bu8],
    {
        match self {
            Command::Status => StatusReply {  },
        }
    }
}

/// Signifies that a type is a reply.
pub trait Reply {
    /// The bytes of the reply, as a specification.
    spec fn message_bytes(&self) -> Seq<u8>;

    /// Convert to a binary format we can send back to a client.
    fn to_message_bytes(&self) -> (res: &[u8])
        ensures
            res@ == self.message_bytes(),
    ;
}

} // verus!
