//! The address a datagram came from.

use vstd::prelude::*;

verus! {

/// A UDP peer: an IP address as a number, most significant byte first, and a port.
#[derive(Debug, Copy, Clone, PartialEq, Eq, Structural)]
pub enum RemoteAddr {
    V4 { ipv4: u32, port: u16 },
    V6 { ipv6: u128, port: u16, flowinfo: u32, scope_id: u32 },
}

impl RemoteAddr {
    pub open spec fn spec_port(self) -> u16 {
        match self {
            RemoteAddr::V4 { port, .. } => port,
            RemoteAddr::V6 { port, .. } => port,
        }
    }

    /// The port, whatever the kind of address.
    #[verifier::when_used_as_spec(spec_port)]
    pub fn port(self) -> (port: u16)
        ensures
            port == self.spec_port(),
    {
        match self {
            RemoteAddr::V4 { port, .. } => port,
            RemoteAddr::V6 { port, .. } => port,
        }
    }
}

/// The port is the one that the address carries, whatever its kind.
pub proof fn law_port_is_the_one_carried(
    ipv4: u32,
    ipv6: u128,
    port: u16,
    flowinfo: u32,
    scope_id: u32,
)
    ensures
        (RemoteAddr::V4 { ipv4, port }).port() == port,
        (RemoteAddr::V6 { ipv6, port, flowinfo, scope_id }).port() == port,
{
}

} // verus!
