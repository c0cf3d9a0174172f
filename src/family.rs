use vstd::prelude::*;
use vstd::std_specs::cmp::PartialOrdSpec;

use crate::addr::{order_of, IpAddr, Ipv4Addr, Ipv6Addr};
use crate::socket::{SocketAddr, SocketAddrV4, SocketAddrV6};

verus! {

/// Which of the two address families a value belongs to; `V4` orders before `V6`.
#[derive(Clone, Copy, PartialEq, Eq, Structural, Debug, Hash, Ord)]
pub enum IpFamily {
    V4,
    V6,
}

impl IpFamily {
    pub open spec fn rank(self) -> int {
        match self {
            IpFamily::V4 => 0,
            IpFamily::V6 => 1,
        }
    }

    pub open spec fn spec_localhost(self) -> IpAddr {
        match self {
            IpFamily::V4 => IpAddr::V4(Ipv4Addr::spec_localhost()),
            IpFamily::V6 => IpAddr::V6(Ipv6Addr::spec_localhost()),
        }
    }

    pub open spec fn spec_unspecified(self) -> IpAddr {
        match self {
            IpFamily::V4 => IpAddr::V4(Ipv4Addr::spec_unspecified()),
            IpFamily::V6 => IpAddr::V6(Ipv6Addr::spec_unspecified()),
        }
    }

    /// The loopback address of this family: 127.0.0.1 or ::1.
    pub fn localhost(&self) -> (r: IpAddr)
        ensures
            r == self.spec_localhost(),
    {
        match self {
            IpFamily::V4 => IpAddr::V4(Ipv4Addr { bits: 0x7f00_0001 }),
            IpFamily::V6 => IpAddr::V6(Ipv6Addr { bits: 1 }),
        }
    }

    /// The all-zeros address of this family: 0.0.0.0 or ::.
    pub fn unspecified(&self) -> (r: IpAddr)
        ensures
            r == self.spec_unspecified(),
    {
        match self {
            IpFamily::V4 => IpAddr::V4(Ipv4Addr { bits: 0 }),
            IpFamily::V6 => IpAddr::V6(Ipv6Addr { bits: 0 }),
        }
    }
}

impl PartialOrd for IpFamily {
    fn partial_cmp(&self, other: &IpFamily) -> Option<core::cmp::Ordering> {
        match (self, other) {
            (IpFamily::V4, IpFamily::V6) => Some(core::cmp::Ordering::Less),
            (IpFamily::V6, IpFamily::V4) => Some(core::cmp::Ordering::Greater),
            _ => Some(core::cmp::Ordering::Equal),
        }
    }
}

impl vstd::std_specs::cmp::PartialOrdSpecImpl for IpFamily {
    open spec fn obeys_partial_cmp_spec() -> bool {
        true
    }

    open spec fn partial_cmp_spec(&self, other: &IpFamily) -> Option<core::cmp::Ordering> {
        Some(order_of(self.rank(), other.rank()))
    }
}

/// Reports the family of a value that belongs to exactly one.
pub trait IpFamilyExt {
    spec fn spec_family(&self) -> IpFamily;

    fn family(&self) -> (r: IpFamily)
        ensures
            r == self.spec_family(),
    ;
}

impl IpFamilyExt for IpAddr {
    open spec fn spec_family(&self) -> IpFamily {
        match *self {
            IpAddr::V4(_) => IpFamily::V4,
            IpAddr::V6(_) => IpFamily::V6,
        }
    }

    fn family(&self) -> (r: IpFamily) {
        *self.as_ref()
    }
}

impl IpFamilyExt for SocketAddr {
    open spec fn spec_family(&self) -> IpFamily {
        match *self {
            SocketAddr::V4(_) => IpFamily::V4,
            SocketAddr::V6(_) => IpFamily::V6,
        }
    }

    fn family(&self) -> (r: IpFamily) {
        *self.as_ref()
    }
}

impl IpFamilyExt for Ipv4Addr {
    open spec fn spec_family(&self) -> IpFamily {
        IpFamily::V4
    }

    fn family(&self) -> (r: IpFamily) {
        IpFamily::V4
    }
}

impl IpFamilyExt for Ipv6Addr {
    open spec fn spec_family(&self) -> IpFamily {
        IpFamily::V6
    }

    fn family(&self) -> (r: IpFamily) {
        IpFamily::V6
    }
}

impl IpFamilyExt for SocketAddrV4 {
    open spec fn spec_family(&self) -> IpFamily {
        IpFamily::V4
    }

    fn family(&self) -> (r: IpFamily) {
        IpFamily::V4
    }
}

impl IpFamilyExt for SocketAddrV6 {
    open spec fn spec_family(&self) -> IpFamily {
        IpFamily::V6
    }

    fn family(&self) -> (r: IpFamily) {
        IpFamily::V6
    }
}

impl AsRef<IpFamily> for IpAddr {
    fn as_ref(&self) -> (r: &IpFamily)
        ensures
            *r == self.spec_family(),
    {
        match self {
            IpAddr::V4(_) => &IpFamily::V4,
            IpAddr::V6(_) => &IpFamily::V6,
        }
    }
}

impl AsRef<IpFamily> for SocketAddr {
    fn as_ref(&self) -> (r: &IpFamily)
        ensures
            *r == self.spec_family(),
    {
        match self {
            SocketAddr::V4(_) => &IpFamily::V4,
            SocketAddr::V6(_) => &IpFamily::V6,
        }
    }
}

impl From<IpAddr> for IpFamily {
    fn from(a: IpAddr) -> IpFamily {
        a.family()
    }
}

impl vstd::std_specs::convert::FromSpecImpl<IpAddr> for IpFamily {
    open spec fn obeys_from_spec() -> bool {
        true
    }

    open spec fn from_spec(a: IpAddr) -> IpFamily {
        a.spec_family()
    }
}

impl From<SocketAddr> for IpFamily {
    fn from(s: SocketAddr) -> IpFamily {
        s.family()
    }
}

impl vstd::std_specs::convert::FromSpecImpl<SocketAddr> for IpFamily {
    open spec fn obeys_from_spec() -> bool {
        true
    }

    open spec fn from_spec(s: SocketAddr) -> IpFamily {
        s.spec_family()
    }
}

/// The loopback and unspecified addresses of a family belong to that family.
pub proof fn lemma_constants_keep_family(t: IpFamily)
    ensures
        t.spec_localhost().spec_family() == t,
        t.spec_unspecified().spec_family() == t,
{
}

/// The family tags are totally ordered, with `V4` before `V6`.
pub proof fn lemma_family_order(a: IpFamily, b: IpFamily)
    ensures
        a.partial_cmp_spec(&b) is Some,
        IpFamily::V4.partial_cmp_spec(&IpFamily::V6) == Some(core::cmp::Ordering::Less),
        a.partial_cmp_spec(&b) == Some(core::cmp::Ordering::Equal) <==> a == b,
{
}

} // verus!
