use vstd::prelude::*;

verus! {

/// An IP address held as its integer value.
#[derive(Clone, Copy, Debug, PartialEq, Eq, Structural)]
pub enum IpAddress {
    V4(u32),
    V6(u128),
}

/// A socket address: an IP address and a port.
#[derive(Clone, Copy, Debug, PartialEq, Eq, Structural)]
pub struct SockAddr {
    pub ip: IpAddress,
    pub port: u16,
}

impl SockAddr {
    pub open spec fn spec_is_ipv6(self) -> bool {
        self.ip is V6
    }

    #[verifier::when_used_as_spec(spec_is_ipv6)]
    pub fn is_ipv6(self) -> (r: bool)
        ensures
            r == self.spec_is_ipv6(),
    {
        match self.ip {
            IpAddress::V6(_) => true,
            IpAddress::V4(_) => false,
        }
    }
}

/// The unspecified address of the chosen family, with port 0 (the kernel picks
/// the port on bind).
pub open spec fn unspecified_addr(ipv6: bool) -> SockAddr {
    SockAddr { ip: if ipv6 { IpAddress::V6(0) } else { IpAddress::V4(0) }, port: 0 }
}

pub fn socket_addr_with_unspecified_ip_port(ipv6: bool) -> (r: SockAddr)
    ensures
        r == unspecified_addr(ipv6),
{
    if ipv6 {
        SockAddr { ip: IpAddress::V6(0), port: 0 }
    } else {
        SockAddr { ip: IpAddress::V4(0), port: 0 }
    }
}

/// The local address to bind for talking to `peer`: unspecified, of the same
/// family, with a port that the kernel assigns. Used both for a fresh QUIC
/// endpoint (with the remote address) and for a migration rebind (with the
/// endpoint's current local address).
pub fn bind_addr_matching(peer: SockAddr) -> (r: SockAddr)
    ensures
        r == unspecified_addr(peer.spec_is_ipv6()),
        r.spec_is_ipv6() == peer.spec_is_ipv6(),
        r.port == 0,
{
    socket_addr_with_unspecified_ip_port(peer.is_ipv6())
}

} // verus!
