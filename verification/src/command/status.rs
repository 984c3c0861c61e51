//! The reply to a status command.

use vstd::prelude::*;
use vstd::string::is_ascii_spec_bytes;

use crate::command::Reply;

verus! {

/// Return the status of our server.
#[derive(Debug)]
pub struct StatusReply {}

impl Reply for StatusReply {
    /// The two bytes of `ok`.
    open spec fn message_bytes(&self) -> Seq<u8> {
        seq![0x6fu8, 0x6bu8]
    }

    fn to_message_bytes(&self) -> (res: &[u8]) {
        proof {
            reveal_strlit("ok");
            is_ascii_spec_bytes("ok");
            assert('o' as u8 == 0x6fu8 && 'k' as u8 == 0x6bu8);
        }
        let res = "ok".as_bytes();
        assert(res@ =~= seq![0x6fu8, 0x6bu8]);
        res
    }
}

} // verus!
