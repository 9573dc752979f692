//! Socket addresses as plain numbers, and the choice of the one to dial.

use vstd::prelude::*;

verus! {

/// An IP address with a port, ready to dial. The address is held as the
/// number that its bytes write in network order.
#[derive(Clone, Copy, Debug, PartialEq, Eq, Structural)]
pub enum SocketAddress {
    V4 { ip: u32, port: u16 },
    V6 { ip: u128, port: u16, flowinfo: u32, scope_id: u32 },
}

impl SocketAddress {
    /// The port of the address.
    pub open spec fn spec_port(self) -> u16 {
        match self {
            SocketAddress::V4 { port, .. } => port,
            SocketAddress::V6 { port, .. } => port,
        }
    }

    /// The same address with another port.
    pub open spec fn spec_with_port(self, port: u16) -> SocketAddress {
        match self {
            SocketAddress::V4 { ip, .. } => SocketAddress::V4 { ip, port },
            SocketAddress::V6 { ip, flowinfo, scope_id, .. } => SocketAddress::V6 {
                ip,
                port,
                flowinfo,
                scope_id,
            },
        }
    }

    /// The port of the address.
    #[verifier::when_used_as_spec(spec_port)]
    pub fn port(self) -> (port: u16)
        ensures
            port == self.spec_port(),
    {
        match self {
            SocketAddress::V4 { port, .. } => port,
            SocketAddress::V6 { port, .. } => port,
        }
    }

    /// The same address with another port.
    #[verifier::when_used_as_spec(spec_with_port)]
    pub fn with_port(self, port: u16) -> (moved: SocketAddress)
        ensures
            moved == self.spec_with_port(port),
    {
        match self {
            SocketAddress::V4 { ip, .. } => SocketAddress::V4 { ip, port },
            SocketAddress::V6 { ip, flowinfo, scope_id, .. } => SocketAddress::V6 {
                ip,
                port,
                flowinfo,
                scope_id,
            },
        }
    }
}

/// The address to dial for a candidate that name resolution gave: the
/// candidate itself, with the default port where it carries none (port 0).
pub open spec fn dial_address(candidate: SocketAddress, default_port: u16) -> SocketAddress {
    if candidate.spec_port() == 0 {
        candidate.spec_with_port(default_port)
    } else {
        candidate
    }
}

/// Picks the address to dial among the candidates of a name resolution: the
/// first one, with the default port if it has none. `None` if there is no
/// candidate.
pub fn choose_address(candidates: &Vec<SocketAddress>, default_port: u16) -> (chosen: Option<
    SocketAddress,
>)
    ensures
        candidates@.len() == 0 ==> chosen is None,
        candidates@.len() > 0 ==> chosen == Some(dial_address(candidates@[0], default_port)),
{
    if candidates.len() == 0 {
        None
    } else {
        let first = candidates[0];
        if first.port() == 0 {
            Some(first.with_port(default_port))
        } else {
            Some(first)
        }
    }
}

} // verus!
