//! The loopback guard: only the hidden service, which connects from the IPv4
//! loopback address, may talk to the server.

pub mod crypto;

use vstd::prelude::*;

verus! {

/// The address of the peer of a connection.
#[derive(Debug, PartialEq, Eq, Clone, Copy)]
pub enum ClientIp {
    /// An IPv4 address, as its four octets.
    V4([u8; 4]),
    /// An IPv6 address, as its eight segments.
    V6([u16; 8]),
}

/// Whether the address is the IPv4 loopback address `127.0.0.1`.
pub open spec fn spec_is_valid_client_ip(ip: ClientIp) -> bool {
    ip matches ClientIp::V4(octets) && octets@ == seq![127u8, 0u8, 0u8, 1u8]
}

/// Whether a connection with this peer address, if it has one, is let
/// through.
pub open spec fn spec_check(peer_addr: Option<ClientIp>) -> bool {
    peer_addr matches Some(ip) && spec_is_valid_client_ip(ip)
}

/// Guard to ensure that the only requests we receive are requests of the
/// hidden service.
#[derive(Debug)]
pub struct TorGuard;

impl TorGuard {
    /// Whether a request with this peer address is let through: one without a
    /// peer address is not.
    pub fn check(&self, peer_addr: Option<ClientIp>) -> (res: bool)
        ensures
            res == spec_check(peer_addr),
    {
        match peer_addr {
            Some(addr) => is_valid_client_ip(addr),
            None => false,
        }
    }
}

/// Check if the client trying to connect is valid.
///
/// The client is only allowed to be the hidden service: every other address,
/// the IPv6 loopback address included, is refused.
pub fn is_valid_client_ip(ip: ClientIp) -> (res: bool)
    ensures
        res == spec_is_valid_client_ip(ip),
{
    match ip {
        ClientIp::V4(octets) => {
            let res = octets[0] == 127 && octets[1] == 0 && octets[2] == 0 && octets[3] == 1;
            assert(res == (octets@ =~= seq![127u8, 0u8, 0u8, 1u8]));
            res
        },
        ClientIp::V6(_) => false,
    }
}

} // verus!
