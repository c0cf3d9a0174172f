use vstd::prelude::*;

use crate::addr::{IpAddr, Ipv4Addr, Ipv6Addr};
use crate::family::IpFamilyExt;

verus! {

/// An IPv4 address with a port.
#[derive(Clone, Copy, PartialEq, Eq, Structural, Debug, Hash, PartialOrd, Ord)]
pub struct SocketAddrV4 {
    pub ip: Ipv4Addr,
    pub port: u16,
}

/// An IPv6 address with a port, a flow label and a scope id.
#[derive(Clone, Copy, PartialEq, Eq, Structural, Debug, Hash, PartialOrd, Ord)]
pub struct SocketAddrV6 {
    pub ip: Ipv6Addr,
    pub port: u16,
    pub flowinfo: u32,
    pub scope_id: u32,
}

impl SocketAddrV6 {
    /// An IPv6 socket address with all four parts given.
    pub fn with_scope(ip: Ipv6Addr, port: u16, flowinfo: u32, scope_id: u32) -> (r: SocketAddrV6)
        ensures
            r == (SocketAddrV6 { ip, port, flowinfo, scope_id }),
    {
        SocketAddrV6 { ip, port, flowinfo, scope_id }
    }

    pub fn flowinfo(&self) -> (r: u32)
        ensures
            r == self.flowinfo,
    {
        self.flowinfo
    }

    pub fn scope_id(&self) -> (r: u32)
        ensures
            r == self.scope_id,
    {
        self.scope_id
    }
}

/// A socket address of either family.
#[derive(Clone, Copy, PartialEq, Eq, Structural, Debug, Hash, PartialOrd, Ord)]
pub enum SocketAddr {
    V4(SocketAddrV4),
    V6(SocketAddrV6),
}

impl From<SocketAddrV4> for SocketAddr {
    fn from(s: SocketAddrV4) -> SocketAddr {
        SocketAddr::V4(s)
    }
}

impl vstd::std_specs::convert::FromSpecImpl<SocketAddrV4> for SocketAddr {
    open spec fn obeys_from_spec() -> bool {
        true
    }

    open spec fn from_spec(s: SocketAddrV4) -> SocketAddr {
        SocketAddr::V4(s)
    }
}

impl From<SocketAddrV6> for SocketAddr {
    fn from(s: SocketAddrV6) -> SocketAddr {
        SocketAddr::V6(s)
    }
}

impl vstd::std_specs::convert::FromSpecImpl<SocketAddrV6> for SocketAddr {
    open spec fn obeys_from_spec() -> bool {
        true
    }

    open spec fn from_spec(s: SocketAddrV6) -> SocketAddr {
        SocketAddr::V6(s)
    }
}

impl SocketAddr {
    pub open spec fn spec_ip(self) -> IpAddr {
        match self {
            SocketAddr::V4(s) => IpAddr::V4(s.ip),
            SocketAddr::V6(s) => IpAddr::V6(s.ip),
        }
    }

    pub open spec fn spec_port(self) -> u16 {
        match self {
            SocketAddr::V4(s) => s.port,
            SocketAddr::V6(s) => s.port,
        }
    }

    /// A socket address of the address's family; for v6 the flow label and
    /// scope id are zero.
    pub open spec fn spec_new(ip: IpAddr, port: u16) -> SocketAddr {
        match ip {
            IpAddr::V4(a) => SocketAddr::V4(SocketAddrV4 { ip: a, port }),
            IpAddr::V6(a) => SocketAddr::V6(SocketAddrV6 { ip: a, port, flowinfo: 0, scope_id: 0 }),
        }
    }

    pub fn new(ip: IpAddr, port: u16) -> (r: SocketAddr)
        ensures
            r == SocketAddr::spec_new(ip, port),
    {
        match ip {
            IpAddr::V4(a) => SocketAddr::V4(SocketAddrV4 { ip: a, port }),
            IpAddr::V6(a) => SocketAddr::V6(SocketAddrV6 { ip: a, port, flowinfo: 0, scope_id: 0 }),
        }
    }

    pub fn ip(&self) -> (r: IpAddr)
        ensures
            r == self.spec_ip(),
    {
        match self {
            SocketAddr::V4(s) => IpAddr::V4(s.ip),
            SocketAddr::V6(s) => IpAddr::V6(s.ip),
        }
    }

    pub fn port(&self) -> (r: u16)
        ensures
            r == self.spec_port(),
    {
        match self {
            SocketAddr::V4(s) => s.port,
            SocketAddr::V6(s) => s.port,
        }
    }

    /// Replaces the address. Within a family the other fields stay; an address
    /// of the other family gives a fresh socket address of that family with the
    /// same port.
    pub fn set_ip(&mut self, new_ip: IpAddr)
        ensures
            final(self).spec_ip() == new_ip,
            final(self).spec_family() == new_ip.spec_family(),
            final(self).spec_port() == old(self).spec_port(),
            old(self).spec_family() == new_ip.spec_family() ==> match (*old(self), *final(self)) {
                (SocketAddr::V6(a), SocketAddr::V6(b)) => a.flowinfo == b.flowinfo && a.scope_id
                    == b.scope_id,
                _ => true,
            },
            old(self).spec_family() != new_ip.spec_family() ==> *final(self) == SocketAddr::spec_new(
                new_ip,
                old(self).spec_port(),
            ),
    {
        let port = self.port();
        match (self, new_ip) {
            (SocketAddr::V4(s), IpAddr::V4(a)) => {
                s.ip = a;
            },
            (SocketAddr::V6(s), IpAddr::V6(a)) => {
                s.ip = a;
            },
            (this, _) => {
                *this = SocketAddr::new(new_ip, port);
            },
        }
    }

    pub fn set_port(&mut self, new_port: u16)
        ensures
            final(self).spec_port() == new_port,
            final(self).spec_ip() == old(self).spec_ip(),
            match (*old(self), *final(self)) {
                (SocketAddr::V6(a), SocketAddr::V6(b)) => a.flowinfo == b.flowinfo && a.scope_id
                    == b.scope_id,
                (SocketAddr::V4(_), SocketAddr::V4(_)) => true,
                _ => false,
            },
    {
        match self {
            SocketAddr::V4(s) => {
                s.port = new_port;
            },
            SocketAddr::V6(s) => {
                s.port = new_port;
            },
        }
    }
}

/// A socket address is always of its address's family.
pub proof fn lemma_socket_family_is_ip_family(s: SocketAddr)
    ensures
        s.spec_family() == s.spec_ip().spec_family(),
{
}

/// A socket address of a single family is of its address's family.
pub proof fn lemma_family_socket_is_ip_family(s4: SocketAddrV4, s6: SocketAddrV6)
    ensures
        s4.spec_family() == s4.ip.spec_family(),
        s6.spec_family() == s6.ip.spec_family(),
{
}

} // verus!
