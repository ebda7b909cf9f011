//! Socket addresses as plain values.

use vstd::prelude::*;

verus! {

/// A socket address: an IP address and a port.
///
/// The address is held as one integer, the first octet most significant, so
/// that `127.0.0.1` is `0x7f00_0001`: the four octets of a version 4 address,
/// or the eight segments of a version 6 address. A version 6 endpoint also
/// carries its flow information and scope identifier.
#[derive(Clone, Copy, Debug, PartialEq, Eq, Hash, Structural)]
pub enum Endpoint {
    V4 { octets: u32, port: u16 },
    V6 { segments: u128, port: u16, flowinfo: u32, scope_id: u32 },
}

impl Endpoint {
    /// The version 4 wildcard address `0.0.0.0` at `port`, which stands for
    /// every local interface: the address that the proxy listens on.
    pub fn wildcard_v4(port: u16) -> (endpoint: Endpoint)
        ensures
            endpoint == (Endpoint::V4 { octets: 0, port }),
    {
        Endpoint::V4 { octets: 0, port }
    }
}

} // verus!
