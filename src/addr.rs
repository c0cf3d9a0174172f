use vstd::prelude::*;
use vstd::std_specs::cmp::PartialOrdSpec;

verus! {

/// How `a` stands to `b` on the number line.
pub open spec fn order_of(a: int, b: int) -> core::cmp::Ordering {
    if a < b {
        core::cmp::Ordering::Less
    } else if a > b {
        core::cmp::Ordering::Greater
    } else {
        core::cmp::Ordering::Equal
    }
}

/// The four bytes of a 32-bit value, most significant first.
pub open spec fn be_bytes32(x: u32) -> Seq<u8> {
    seq![(x >> 24u32) as u8, (x >> 16u32) as u8, (x >> 8u32) as u8, x as u8]
}

/// The 32-bit value whose bytes, most significant first, are `b[0..4]`.
pub open spec fn be_u32(b: Seq<u8>) -> u32 {
    (b[0] as u32) << 24u32 | (b[1] as u32) << 16u32 | (b[2] as u32) << 8u32 | b[3] as u32
}

/// The sixteen bytes of a 128-bit value, most significant first.
pub open spec fn be_bytes128(x: u128) -> Seq<u8> {
    seq![
        (x >> 120u128) as u8, (x >> 112u128) as u8, (x >> 104u128) as u8, (x >> 96u128) as u8,
        (x >> 88u128) as u8, (x >> 80u128) as u8, (x >> 72u128) as u8, (x >> 64u128) as u8,
        (x >> 56u128) as u8, (x >> 48u128) as u8, (x >> 40u128) as u8, (x >> 32u128) as u8,
        (x >> 24u128) as u8, (x >> 16u128) as u8, (x >> 8u128) as u8, x as u8,
    ]
}

/// The 128-bit value whose bytes, most significant first, are `b[0..16]`.
pub open spec fn be_u128(b: Seq<u8>) -> u128 {
    (b[0] as u128) << 120u128 | (b[1] as u128) << 112u128 | (b[2] as u128) << 104u128
        | (b[3] as u128) << 96u128 | (b[4] as u128) << 88u128 | (b[5] as u128) << 80u128
        | (b[6] as u128) << 72u128 | (b[7] as u128) << 64u128 | (b[8] as u128) << 56u128
        | (b[9] as u128) << 48u128 | (b[10] as u128) << 40u128 | (b[11] as u128) << 32u128
        | (b[12] as u128) << 24u128 | (b[13] as u128) << 16u128 | (b[14] as u128) << 8u128
        | b[15] as u128
}

proof fn lemma_be32_inverse(x: u32, b: Seq<u8>)
    requires
        b.len() == 4,
    ensures
        be_u32(be_bytes32(x)) == x,
        be_bytes32(be_u32(b)) == b,
{
    assert(x == ((x >> 24u32) as u8 as u32) << 24u32 | ((x >> 16u32) as u8 as u32) << 16u32
        | ((x >> 8u32) as u8 as u32) << 8u32 | x as u8 as u32) by (bit_vector);
    let (b0, b1, b2, b3) = (b[0], b[1], b[2], b[3]);
    let y = be_u32(b);
    assert(((y >> 24u32) as u8 == b0 && (y >> 16u32) as u8 == b1 && (y >> 8u32) as u8 == b2
        && y as u8 == b3)) by (bit_vector)
        requires
            y == (b0 as u32) << 24u32 | (b1 as u32) << 16u32 | (b2 as u32) << 8u32 | b3 as u32,
    ;
    assert(be_bytes32(y) =~= b);
}

/// An IPv4 address, held as its 32-bit value.
#[derive(Clone, Copy, PartialEq, Eq, Structural, Debug, Hash, Ord)]
pub struct Ipv4Addr {
    pub bits: u32,
}

impl Ipv4Addr {
    /// 127.0.0.1
    pub open spec fn spec_localhost() -> Ipv4Addr {
        Ipv4Addr { bits: 0x7f00_0001 }
    }

    /// 0.0.0.0
    pub open spec fn spec_unspecified() -> Ipv4Addr {
        Ipv4Addr { bits: 0 }
    }

    pub open spec fn spec_octets(self) -> Seq<u8> {
        be_bytes32(self.bits)
    }

    pub open spec fn spec_from_octets(b: Seq<u8>) -> Ipv4Addr {
        Ipv4Addr { bits: be_u32(b) }
    }

    /// 0.0.0.0 alone.
    pub open spec fn spec_is_unspecified(self) -> bool {
        self.bits == 0
    }

    /// 127.0.0.0/8.
    pub open spec fn spec_is_loopback(self) -> bool {
        self.bits >> 24u32 == 127
    }

    /// 224.0.0.0/4.
    pub open spec fn spec_is_multicast(self) -> bool {
        self.bits >> 28u32 == 14
    }

    pub fn new(a: u8, b: u8, c: u8, d: u8) -> (r: Ipv4Addr)
        ensures
            r.spec_octets() == seq![a, b, c, d],
    {
        let octets = [a, b, c, d];
        assert(octets@ =~= seq![a, b, c, d]);
        Ipv4Addr::from_octets(octets)
    }

    pub fn from_octets(b: [u8; 4]) -> (r: Ipv4Addr)
        ensures
            r == Ipv4Addr::spec_from_octets(b@),
            r.spec_octets() == b@,
    {
        let bits: u32 = (b[0] as u32) << 24u32 | (b[1] as u32) << 16u32 | (b[2] as u32) << 8u32
            | b[3] as u32;
        proof {
            lemma_be32_inverse(0, b@);
        }
        Ipv4Addr { bits }
    }

    pub fn octets(&self) -> (r: [u8; 4])
        ensures
            r@ == self.spec_octets(),
    {
        let x = self.bits;
        let r = [(x >> 24u32) as u8, (x >> 16u32) as u8, (x >> 8u32) as u8, x as u8];
        assert(r@ =~= be_bytes32(x));
        r
    }

    pub fn to_bits(&self) -> (r: u32)
        ensures
            r == self.bits,
    {
        self.bits
    }

    pub fn is_unspecified(&self) -> (r: bool)
        ensures
            r == self.spec_is_unspecified(),
    {
        self.bits == 0
    }

    pub fn is_loopback(&self) -> (r: bool)
        ensures
            r == self.spec_is_loopback(),
    {
        self.bits >> 24u32 == 127
    }

    pub fn is_multicast(&self) -> (r: bool)
        ensures
            r == self.spec_is_multicast(),
    {
        self.bits >> 28u32 == 14
    }
}

impl PartialOrd for Ipv4Addr {
    fn partial_cmp(&self, other: &Ipv4Addr) -> Option<core::cmp::Ordering> {
        self.bits.partial_cmp(&other.bits)
    }
}

impl vstd::std_specs::cmp::PartialOrdSpecImpl for Ipv4Addr {
    open spec fn obeys_partial_cmp_spec() -> bool {
        true
    }

    open spec fn partial_cmp_spec(&self, other: &Ipv4Addr) -> Option<core::cmp::Ordering> {
        Some(order_of(self.bits as int, other.bits as int))
    }
}

proof fn lemma_be128_inverse(x: u128, b: Seq<u8>)
    requires
        b.len() == 16,
    ensures
        be_u128(be_bytes128(x)) == x,
        be_bytes128(be_u128(b)) == b,
{
    let s = be_bytes128(x);
    assert(x == ((x >> 120u128) as u8 as u128) << 120u128 | ((x >> 112u128) as u8 as u128) << 112u128 | ((x >> 104u128) as u8 as u128) << 104u128 | ((x >> 96u128) as u8 as u128) << 96u128 | ((x >> 88u128) as u8 as u128) << 88u128 | ((x >> 80u128) as u8 as u128) << 80u128 | ((x >> 72u128) as u8 as u128) << 72u128 | ((x >> 64u128) as u8 as u128) << 64u128 | ((x >> 56u128) as u8 as u128) << 56u128 | ((x >> 48u128) as u8 as u128) << 48u128 | ((x >> 40u128) as u8 as u128) << 40u128 | ((x >> 32u128) as u8 as u128) << 32u128 | ((x >> 24u128) as u8 as u128) << 24u128 | ((x >> 16u128) as u8 as u128) << 16u128 | ((x >> 8u128) as u8 as u128) << 8u128 | x as u8 as u128) by (bit_vector);
    let (b0, b1, b2, b3, b4, b5, b6, b7) = (b[0], b[1], b[2], b[3], b[4], b[5], b[6], b[7]);
    let (b8, b9, b10, b11, b12, b13, b14, b15) = (b[8], b[9], b[10], b[11], b[12], b[13], b[14], b[15]);
    let y = be_u128(b);
    assert((y >> 120u128) as u8 == b0 && (y >> 112u128) as u8 == b1 && (y >> 104u128) as u8 == b2 && (y >> 96u128) as u8 == b3 && (y >> 88u128) as u8 == b4 && (y >> 80u128) as u8 == b5 && (y >> 72u128) as u8 == b6 && (y >> 64u128) as u8 == b7 && (y >> 56u128) as u8 == b8 && (y >> 48u128) as u8 == b9 && (y >> 40u128) as u8 == b10 && (y >> 32u128) as u8 == b11 && (y >> 24u128) as u8 == b12 && (y >> 16u128) as u8 == b13 && (y >> 8u128) as u8 == b14 && y as u8 == b15) by (bit_vector)
        requires
            y == (b0 as u128) << 120u128 | (b1 as u128) << 112u128 | (b2 as u128) << 104u128 | (b3 as u128) << 96u128 | (b4 as u128) << 88u128 | (b5 as u128) << 80u128 | (b6 as u128) << 72u128 | (b7 as u128) << 64u128 | (b8 as u128) << 56u128 | (b9 as u128) << 48u128 | (b10 as u128) << 40u128 | (b11 as u128) << 32u128 | (b12 as u128) << 24u128 | (b13 as u128) << 16u128 | (b14 as u128) << 8u128 | b15 as u128,
    ;
    assert(be_bytes128(y) =~= b);
}

/// An IPv6 address, held as its 128-bit value.
#[derive(Clone, Copy, PartialEq, Eq, Structural, Debug, Hash, Ord)]
pub struct Ipv6Addr {
    pub bits: u128,
}

impl Ipv6Addr {
    /// ::1
    pub open spec fn spec_localhost() -> Ipv6Addr {
        Ipv6Addr { bits: 1 }
    }

    /// ::
    pub open spec fn spec_unspecified() -> Ipv6Addr {
        Ipv6Addr { bits: 0 }
    }

    pub open spec fn spec_octets(self) -> Seq<u8> {
        be_bytes128(self.bits)
    }

    pub open spec fn spec_from_octets(b: Seq<u8>) -> Ipv6Addr {
        Ipv6Addr { bits: be_u128(b) }
    }

    /// :: alone.
    pub open spec fn spec_is_unspecified(self) -> bool {
        self.bits == 0
    }

    /// ::1 alone.
    pub open spec fn spec_is_loopback(self) -> bool {
        self.bits == 1
    }

    /// ff00::/8.
    pub open spec fn spec_is_multicast(self) -> bool {
        self.bits >> 120u128 == 0xff
    }

    pub fn from_octets(b: [u8; 16]) -> (r: Ipv6Addr)
        ensures
            r == Ipv6Addr::spec_from_octets(b@),
            r.spec_octets() == b@,
    {
        let bits: u128 = (b[0] as u128) << 120u128 | (b[1] as u128) << 112u128 | (b[2] as u128) << 104u128 | (b[3] as u128) << 96u128 | (b[4] as u128) << 88u128 | (b[5] as u128) << 80u128 | (b[6] as u128) << 72u128 | (b[7] as u128) << 64u128 | (b[8] as u128) << 56u128 | (b[9] as u128) << 48u128 | (b[10] as u128) << 40u128 | (b[11] as u128) << 32u128 | (b[12] as u128) << 24u128 | (b[13] as u128) << 16u128 | (b[14] as u128) << 8u128 | b[15] as u128;
        proof {
            lemma_be128_inverse(0, b@);
        }
        Ipv6Addr { bits }
    }

    pub fn octets(&self) -> (r: [u8; 16])
        ensures
            r@ == self.spec_octets(),
    {
        let x = self.bits;
        let r = [(x >> 120u128) as u8, (x >> 112u128) as u8, (x >> 104u128) as u8, (x >> 96u128) as u8, (x >> 88u128) as u8, (x >> 80u128) as u8, (x >> 72u128) as u8, (x >> 64u128) as u8, (x >> 56u128) as u8, (x >> 48u128) as u8, (x >> 40u128) as u8, (x >> 32u128) as u8, (x >> 24u128) as u8, (x >> 16u128) as u8, (x >> 8u128) as u8, x as u8];
        assert(r@ =~= be_bytes128(x));
        r
    }

    pub fn to_bits(&self) -> (r: u128)
        ensures
            r == self.bits,
    {
        self.bits
    }

    pub fn is_unspecified(&self) -> (r: bool)
        ensures
            r == self.spec_is_unspecified(),
    {
        self.bits == 0
    }

    pub fn is_loopback(&self) -> (r: bool)
        ensures
            r == self.spec_is_loopback(),
    {
        self.bits == 1
    }

    pub fn is_multicast(&self) -> (r: bool)
        ensures
            r == self.spec_is_multicast(),
    {
        self.bits >> 120u128 == 0xff
    }
}

impl PartialOrd for Ipv6Addr {
    fn partial_cmp(&self, other: &Ipv6Addr) -> Option<core::cmp::Ordering> {
        self.bits.partial_cmp(&other.bits)
    }
}

impl vstd::std_specs::cmp::PartialOrdSpecImpl for Ipv6Addr {
    open spec fn obeys_partial_cmp_spec() -> bool {
        true
    }

    open spec fn partial_cmp_spec(&self, other: &Ipv6Addr) -> Option<core::cmp::Ordering> {
        Some(order_of(self.bits as int, other.bits as int))
    }
}

impl From<u32> for Ipv4Addr {
    fn from(bits: u32) -> Ipv4Addr {
        Ipv4Addr { bits }
    }
}

impl vstd::std_specs::convert::FromSpecImpl<u32> for Ipv4Addr {
    open spec fn obeys_from_spec() -> bool {
        true
    }

    open spec fn from_spec(bits: u32) -> Ipv4Addr {
        Ipv4Addr { bits }
    }
}

impl From<Ipv4Addr> for u32 {
    fn from(a: Ipv4Addr) -> u32 {
        a.bits
    }
}

impl vstd::std_specs::convert::FromSpecImpl<Ipv4Addr> for u32 {
    open spec fn obeys_from_spec() -> bool {
        true
    }

    open spec fn from_spec(a: Ipv4Addr) -> u32 {
        a.bits
    }
}

impl From<[u8; 4]> for Ipv4Addr {
    fn from(b: [u8; 4]) -> Ipv4Addr {
        Ipv4Addr::from_octets(b)
    }
}

impl vstd::std_specs::convert::FromSpecImpl<[u8; 4]> for Ipv4Addr {
    open spec fn obeys_from_spec() -> bool {
        true
    }

    open spec fn from_spec(b: [u8; 4]) -> Ipv4Addr {
        Ipv4Addr::spec_from_octets(b@)
    }
}

impl From<u128> for Ipv6Addr {
    fn from(bits: u128) -> Ipv6Addr {
        Ipv6Addr { bits }
    }
}

impl vstd::std_specs::convert::FromSpecImpl<u128> for Ipv6Addr {
    open spec fn obeys_from_spec() -> bool {
        true
    }

    open spec fn from_spec(bits: u128) -> Ipv6Addr {
        Ipv6Addr { bits }
    }
}

impl From<Ipv6Addr> for u128 {
    fn from(a: Ipv6Addr) -> u128 {
        a.bits
    }
}

impl vstd::std_specs::convert::FromSpecImpl<Ipv6Addr> for u128 {
    open spec fn obeys_from_spec() -> bool {
        true
    }

    open spec fn from_spec(a: Ipv6Addr) -> u128 {
        a.bits
    }
}

impl From<[u8; 16]> for Ipv6Addr {
    fn from(b: [u8; 16]) -> Ipv6Addr {
        Ipv6Addr::from_octets(b)
    }
}

impl vstd::std_specs::convert::FromSpecImpl<[u8; 16]> for Ipv6Addr {
    open spec fn obeys_from_spec() -> bool {
        true
    }

    open spec fn from_spec(b: [u8; 16]) -> Ipv6Addr {
        Ipv6Addr::spec_from_octets(b@)
    }
}

/// An address of either family.
#[derive(Clone, Copy, PartialEq, Eq, Structural, Debug, Hash, Ord)]
pub enum IpAddr {
    V4(Ipv4Addr),
    V6(Ipv6Addr),
}

impl PartialOrd for IpAddr {
    fn partial_cmp(&self, other: &IpAddr) -> Option<core::cmp::Ordering> {
        match (self, other) {
            (IpAddr::V4(a), IpAddr::V4(b)) => a.bits.partial_cmp(&b.bits),
            (IpAddr::V6(a), IpAddr::V6(b)) => a.bits.partial_cmp(&b.bits),
            (IpAddr::V4(_), IpAddr::V6(_)) => Some(core::cmp::Ordering::Less),
            (IpAddr::V6(_), IpAddr::V4(_)) => Some(core::cmp::Ordering::Greater),
        }
    }
}

impl vstd::std_specs::cmp::PartialOrdSpecImpl for IpAddr {
    open spec fn obeys_partial_cmp_spec() -> bool {
        true
    }

    /// v4 before v6, then by numeric value.
    open spec fn partial_cmp_spec(&self, other: &IpAddr) -> Option<core::cmp::Ordering> {
        match (*self, *other) {
            (IpAddr::V4(a), IpAddr::V4(b)) => Some(order_of(a.bits as int, b.bits as int)),
            (IpAddr::V6(a), IpAddr::V6(b)) => Some(order_of(a.bits as int, b.bits as int)),
            (IpAddr::V4(_), IpAddr::V6(_)) => Some(core::cmp::Ordering::Less),
            (IpAddr::V6(_), IpAddr::V4(_)) => Some(core::cmp::Ordering::Greater),
        }
    }
}

impl From<Ipv4Addr> for IpAddr {
    fn from(a: Ipv4Addr) -> IpAddr {
        IpAddr::V4(a)
    }
}

impl vstd::std_specs::convert::FromSpecImpl<Ipv4Addr> for IpAddr {
    open spec fn obeys_from_spec() -> bool {
        true
    }

    open spec fn from_spec(a: Ipv4Addr) -> IpAddr {
        IpAddr::V4(a)
    }
}

impl From<Ipv6Addr> for IpAddr {
    fn from(a: Ipv6Addr) -> IpAddr {
        IpAddr::V6(a)
    }
}

impl vstd::std_specs::convert::FromSpecImpl<Ipv6Addr> for IpAddr {
    open spec fn obeys_from_spec() -> bool {
        true
    }

    open spec fn from_spec(a: Ipv6Addr) -> IpAddr {
        IpAddr::V6(a)
    }
}

/// An IPv4 address built from its own bytes is the same address.
pub proof fn lemma_ipv4_octets_round_trip(a: Ipv4Addr)
    ensures
        Ipv4Addr::spec_from_octets(a.spec_octets()) == a,
{
    lemma_be32_inverse(a.bits, a.spec_octets());
}

/// An IPv6 address built from its own bytes is the same address.
pub proof fn lemma_ipv6_octets_round_trip(a: Ipv6Addr)
    ensures
        Ipv6Addr::spec_from_octets(a.spec_octets()) == a,
{
    lemma_be128_inverse(a.bits, a.spec_octets());
}

/// No IPv4 address is more than one of unspecified, loopback and multicast.
pub proof fn lemma_ipv4_classes_exclusive(a: Ipv4Addr)
    ensures
        !(a.spec_is_unspecified() && a.spec_is_loopback()),
        !(a.spec_is_unspecified() && a.spec_is_multicast()),
        !(a.spec_is_loopback() && a.spec_is_multicast()),
{
    let x = a.bits;
    assert(!(x == 0 && x >> 24u32 == 127) && !(x == 0 && x >> 28u32 == 14) && !(x >> 24u32 == 127
        && x >> 28u32 == 14)) by (bit_vector);
}

/// No IPv6 address is more than one of unspecified, loopback and multicast.
pub proof fn lemma_ipv6_classes_exclusive(a: Ipv6Addr)
    ensures
        !(a.spec_is_unspecified() && a.spec_is_loopback()),
        !(a.spec_is_unspecified() && a.spec_is_multicast()),
        !(a.spec_is_loopback() && a.spec_is_multicast()),
{
    let x = a.bits;
    assert(!(x == 1 && x >> 120u128 == 0xff) && !(x == 0 && x >> 120u128 == 0xff)) by (bit_vector);
}

/// Addresses of one family compare as their numeric values do, and any two
/// are comparable.
pub proof fn lemma_addr_order_is_numeric(a: Ipv4Addr, b: Ipv4Addr, c: Ipv6Addr, d: Ipv6Addr)
    ensures
        a.partial_cmp_spec(&b) is Some,
        a.partial_cmp_spec(&b) == Some(core::cmp::Ordering::Less) <==> a.bits < b.bits,
        a.partial_cmp_spec(&b) == Some(core::cmp::Ordering::Equal) <==> a == b,
        c.partial_cmp_spec(&d) is Some,
        c.partial_cmp_spec(&d) == Some(core::cmp::Ordering::Less) <==> c.bits < d.bits,
        c.partial_cmp_spec(&d) == Some(core::cmp::Ordering::Equal) <==> c == d,
{
}

/// Every v4 address orders before every v6 address; within a family the
/// numeric order holds.
pub proof fn lemma_ip_addr_order(a: IpAddr, b: IpAddr)
    ensures
        a.partial_cmp_spec(&b) is Some,
        (a, b) matches (IpAddr::V4(_), IpAddr::V6(_)) ==> a.partial_cmp_spec(&b) == Some(
            core::cmp::Ordering::Less,
        ),
        (a, b) matches (IpAddr::V4(x), IpAddr::V4(y)) ==> a.partial_cmp_spec(&b) == x.partial_cmp_spec(
            &y,
        ),
        (a, b) matches (IpAddr::V6(x), IpAddr::V6(y)) ==> a.partial_cmp_spec(&b) == x.partial_cmp_spec(
            &y,
        ),
{
}

} // verus!
