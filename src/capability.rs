use vstd::prelude::*;
use vstd::string::StringSliceAdditionalSpecFns;

use crate::addr::{
    lemma_ipv4_classes_exclusive, lemma_ipv4_octets_round_trip, lemma_ipv6_classes_exclusive,
    lemma_ipv6_octets_round_trip, IpAddr, Ipv4Addr, Ipv6Addr,
};
use crate::display::{ipv4_text, ipv6_text, socket_v4_text, socket_v6_text};
use crate::family::{IpFamily, IpFamilyExt};
use crate::sealed::Sealed;
use crate::socket::{SocketAddr, SocketAddrV4, SocketAddrV6};
use crate::text::{
    ipv4_from_text, ipv6_from_text, socket_v4_from_text, socket_v6_from_text, FormatError,
};

verus! {

/// A family marker: binds one family to its address type, its socket-address
/// type and its runtime tag.
pub trait AnyIpFamily: Sealed + Sized {
    type Addr: IpFamilyAddr<Family = Self>;

    type SocketAddr: IpFamilySocketAddr<Family = Self, Addr = Self::Addr>;

    spec fn spec_family() -> IpFamily;

    /// The runtime tag of this family.
    fn family() -> (r: IpFamily)
        ensures
            r == Self::spec_family(),
    ;

    /// The family's loopback and unspecified addresses are those of its tag.
    proof fn lemma_constants_match_tag()
        ensures
            <Self::Addr as IpFamilyAddr>::spec_localhost().spec_to_ip_addr()
                == Self::spec_family().spec_localhost(),
            <Self::Addr as IpFamilyAddr>::spec_unspecified().spec_to_ip_addr()
                == Self::spec_family().spec_unspecified(),
    ;

    /// Every address and socket address of the family carries its tag, and a
    /// socket address holds an address of its own family.
    proof fn lemma_values_carry_tag(a: Self::Addr, s: Self::SocketAddr)
        ensures
            a.spec_to_ip_addr().spec_family() == Self::spec_family(),
            s.spec_to_socket_addr().spec_family() == Self::spec_family(),
            s.spec_to_socket_addr().spec_ip() == s.spec_ip().spec_to_ip_addr(),
            s.spec_to_socket_addr().spec_family() == s.spec_to_socket_addr().spec_ip().spec_family(),
    ;
}

/// What an address type offers to code that is generic over the family.
///
/// `Family` names the marker; the marker's own bounds require that it name
/// this type back.
pub trait IpFamilyAddr: Sealed + Sized + Copy + Eq + Ord + core::hash::Hash where
    Self: From<Self::Raw> + From<Self::Bytes>,
    Self::Raw: From<Self>,
 {
    type Family: Sealed;

    /// The family's native integer.
    type Raw;

    /// The family's fixed-length byte array.
    type Bytes: View<V = Seq<u8>>;

    spec fn spec_byte_len() -> nat;

    spec fn spec_octets(&self) -> Seq<u8>;

    spec fn spec_from_bytes(b: Seq<u8>) -> Self;

    spec fn spec_localhost() -> Self;

    spec fn spec_unspecified() -> Self;

    spec fn spec_is_unspecified(&self) -> bool;

    spec fn spec_is_loopback(&self) -> bool;

    spec fn spec_is_multicast(&self) -> bool;

    /// Length of the byte form: 4 or 16.
    fn byte_len() -> (r: usize)
        ensures
            r == Self::spec_byte_len(),
    ;

    fn localhost() -> (r: Self)
        ensures
            r == Self::spec_localhost(),
    ;

    fn unspecified() -> (r: Self)
        ensures
            r == Self::spec_unspecified(),
    ;

    /// The bytes of the address, most significant first.
    fn octets(&self) -> (r: Self::Bytes)
        ensures
            r@ == self.spec_octets(),
    ;

    /// The address whose bytes, most significant first, are `b`.
    fn from_bytes(b: Self::Bytes) -> (r: Self)
        ensures
            r == Self::spec_from_bytes(b@),
    ;

    fn is_unspecified(&self) -> (r: bool)
        ensures
            r == self.spec_is_unspecified(),
    ;

    fn is_loopback(&self) -> (r: bool)
        ensures
            r == self.spec_is_loopback(),
    ;

    fn is_multicast(&self) -> (r: bool)
        ensures
            r == self.spec_is_multicast(),
    ;

    spec fn spec_from_text(s: Seq<u8>) -> Result<Self, FormatError>;

    spec fn spec_text(&self) -> Seq<char>;

    /// Reads an address literal of this family.
    fn parse(s: &str) -> (r: Result<Self, FormatError>)
        ensures
            r == Self::spec_from_text(s.spec_bytes()),
    ;

    /// The text form of the address.
    fn to_text(&self) -> (r: String)
        ensures
            r@ == self.spec_text(),
    ;

    spec fn spec_to_ip_addr(&self) -> IpAddr;

    /// The same address as an address of either family.
    fn to_ip_addr(&self) -> (r: IpAddr)
        ensures
            r == self.spec_to_ip_addr(),
    ;

    /// The byte form has the family's length, and an address built from its
    /// own bytes is the same address.
    proof fn lemma_octets_round_trip(a: Self)
        ensures
            a.spec_octets().len() == Self::spec_byte_len(),
            Self::spec_from_bytes(a.spec_octets()) == a,
    ;

    /// No address is more than one of unspecified, loopback and multicast.
    proof fn lemma_classes_exclusive(a: Self)
        ensures
            !(a.spec_is_unspecified() && a.spec_is_loopback()),
            !(a.spec_is_unspecified() && a.spec_is_multicast()),
            !(a.spec_is_loopback() && a.spec_is_multicast()),
    ;
}

/// What a socket-address type offers to code that is generic over the family.
///
/// `Family` names the marker, `Addr` the address type of the same family; the
/// marker's own bounds require that both name this type back.
pub trait IpFamilySocketAddr: Sealed + Sized + Copy + Eq + Ord + core::hash::Hash {
    type Family: Sealed;

    type Addr: IpFamilyAddr<Family = Self::Family>;

    spec fn spec_ip(&self) -> Self::Addr;

    spec fn spec_port(&self) -> u16;

    /// The same socket address as one of either family.
    spec fn spec_to_socket_addr(&self) -> SocketAddr;

    fn new(ip: Self::Addr, port: u16) -> (r: Self)
        ensures
            r.spec_ip() == ip,
            r.spec_port() == port,
    ;

    fn ip(&self) -> (r: Self::Addr)
        ensures
            r == self.spec_ip(),
    ;

    fn set_ip(&mut self, new_ip: Self::Addr)
        ensures
            final(self).spec_ip() == new_ip,
            final(self).spec_port() == old(self).spec_port(),
    ;

    fn port(&self) -> (r: u16)
        ensures
            r == self.spec_port(),
    ;

    fn set_port(&mut self, new_port: u16)
        ensures
            final(self).spec_port() == new_port,
            final(self).spec_ip() == old(self).spec_ip(),
    ;

    spec fn spec_from_text(s: Seq<u8>) -> Result<Self, FormatError>;

    spec fn spec_text(&self) -> Seq<char>;

    /// Reads a socket-address literal of this family.
    fn parse(s: &str) -> (r: Result<Self, FormatError>)
        ensures
            r == Self::spec_from_text(s.spec_bytes()),
    ;

    /// The text form of the socket address.
    fn to_text(&self) -> (r: String)
        ensures
            r@ == self.spec_text(),
    ;

    fn to_socket_addr(&self) -> (r: SocketAddr)
        ensures
            r == self.spec_to_socket_addr(),
    ;
}

/// The marker of the v4 family.
pub struct IpFamilyV4;

/// The marker of the v6 family.
pub struct IpFamilyV6;

impl Sealed for IpFamilyV4 {}

impl Sealed for IpFamilyV6 {}

impl Sealed for Ipv4Addr {}

impl Sealed for Ipv6Addr {}

impl Sealed for SocketAddrV4 {}

impl Sealed for SocketAddrV6 {}

impl AnyIpFamily for IpFamilyV4 {
    type Addr = Ipv4Addr;

    type SocketAddr = SocketAddrV4;

    open spec fn spec_family() -> IpFamily {
        IpFamily::V4
    }

    fn family() -> (r: IpFamily) {
        IpFamily::V4
    }

    proof fn lemma_constants_match_tag() {
    }

    proof fn lemma_values_carry_tag(a: Ipv4Addr, s: SocketAddrV4) {
    }
}

impl AnyIpFamily for IpFamilyV6 {
    type Addr = Ipv6Addr;

    type SocketAddr = SocketAddrV6;

    open spec fn spec_family() -> IpFamily {
        IpFamily::V6
    }

    fn family() -> (r: IpFamily) {
        IpFamily::V6
    }

    proof fn lemma_constants_match_tag() {
    }

    proof fn lemma_values_carry_tag(a: Ipv6Addr, s: SocketAddrV6) {
    }
}

impl IpFamilyAddr for Ipv4Addr {
    type Family = IpFamilyV4;

    type Raw = u32;

    type Bytes = [u8; 4];

    open spec fn spec_byte_len() -> nat {
        4
    }

    open spec fn spec_octets(&self) -> Seq<u8> {
        Ipv4Addr::spec_octets(*self)
    }

    open spec fn spec_from_bytes(b: Seq<u8>) -> Ipv4Addr {
        Ipv4Addr::spec_from_octets(b)
    }

    open spec fn spec_localhost() -> Ipv4Addr {
        Ipv4Addr::spec_localhost()
    }

    open spec fn spec_unspecified() -> Ipv4Addr {
        Ipv4Addr::spec_unspecified()
    }

    open spec fn spec_is_unspecified(&self) -> bool {
        Ipv4Addr::spec_is_unspecified(*self)
    }

    open spec fn spec_is_loopback(&self) -> bool {
        Ipv4Addr::spec_is_loopback(*self)
    }

    open spec fn spec_is_multicast(&self) -> bool {
        Ipv4Addr::spec_is_multicast(*self)
    }

    fn byte_len() -> (r: usize) {
        4
    }

    fn localhost() -> (r: Ipv4Addr) {
        Ipv4Addr { bits: 0x7f00_0001 }
    }

    fn unspecified() -> (r: Ipv4Addr) {
        Ipv4Addr { bits: 0 }
    }

    fn octets(&self) -> (r: [u8; 4]) {
        Ipv4Addr::octets(self)
    }

    fn from_bytes(b: [u8; 4]) -> (r: Ipv4Addr) {
        Ipv4Addr::from_octets(b)
    }

    fn is_unspecified(&self) -> (r: bool) {
        Ipv4Addr::is_unspecified(self)
    }

    fn is_loopback(&self) -> (r: bool) {
        Ipv4Addr::is_loopback(self)
    }

    fn is_multicast(&self) -> (r: bool) {
        Ipv4Addr::is_multicast(self)
    }

    open spec fn spec_from_text(s: Seq<u8>) -> Result<Ipv4Addr, FormatError> {
        ipv4_from_text(s)
    }

    open spec fn spec_text(&self) -> Seq<char> {
        ipv4_text(*self)
    }

    fn parse(s: &str) -> (r: Result<Ipv4Addr, FormatError>) {
        Ipv4Addr::parse(s)
    }

    fn to_text(&self) -> (r: String) {
        Ipv4Addr::to_text(self)
    }

    open spec fn spec_to_ip_addr(&self) -> IpAddr {
        IpAddr::V4(*self)
    }

    fn to_ip_addr(&self) -> (r: IpAddr) {
        IpAddr::V4(*self)
    }

    proof fn lemma_octets_round_trip(a: Ipv4Addr) {
        lemma_ipv4_octets_round_trip(a);
    }

    proof fn lemma_classes_exclusive(a: Ipv4Addr) {
        lemma_ipv4_classes_exclusive(a);
    }
}

impl IpFamilySocketAddr for SocketAddrV4 {
    type Family = IpFamilyV4;

    type Addr = Ipv4Addr;

    open spec fn spec_ip(&self) -> Ipv4Addr {
        self.ip
    }

    open spec fn spec_port(&self) -> u16 {
        self.port
    }

    open spec fn spec_to_socket_addr(&self) -> SocketAddr {
        SocketAddr::V4(*self)
    }

    fn new(ip: Ipv4Addr, port: u16) -> (r: SocketAddrV4) {
        SocketAddrV4 { ip, port }
    }

    fn ip(&self) -> (r: Ipv4Addr) {
        self.ip
    }

    fn set_ip(&mut self, new_ip: Ipv4Addr) {
        self.ip = new_ip;
    }

    fn port(&self) -> (r: u16) {
        self.port
    }

    fn set_port(&mut self, new_port: u16) {
        self.port = new_port;
    }

    open spec fn spec_from_text(s: Seq<u8>) -> Result<SocketAddrV4, FormatError> {
        socket_v4_from_text(s)
    }

    open spec fn spec_text(&self) -> Seq<char> {
        socket_v4_text(*self)
    }

    fn parse(s: &str) -> (r: Result<SocketAddrV4, FormatError>) {
        SocketAddrV4::parse(s)
    }

    fn to_text(&self) -> (r: String) {
        SocketAddrV4::to_text(self)
    }

    fn to_socket_addr(&self) -> (r: SocketAddr) {
        SocketAddr::V4(*self)
    }
}

impl IpFamilyAddr for Ipv6Addr {
    type Family = IpFamilyV6;

    type Raw = u128;

    type Bytes = [u8; 16];

    open spec fn spec_byte_len() -> nat {
        16
    }

    open spec fn spec_octets(&self) -> Seq<u8> {
        Ipv6Addr::spec_octets(*self)
    }

    open spec fn spec_from_bytes(b: Seq<u8>) -> Ipv6Addr {
        Ipv6Addr::spec_from_octets(b)
    }

    open spec fn spec_localhost() -> Ipv6Addr {
        Ipv6Addr::spec_localhost()
    }

    open spec fn spec_unspecified() -> Ipv6Addr {
        Ipv6Addr::spec_unspecified()
    }

    open spec fn spec_is_unspecified(&self) -> bool {
        Ipv6Addr::spec_is_unspecified(*self)
    }

    open spec fn spec_is_loopback(&self) -> bool {
        Ipv6Addr::spec_is_loopback(*self)
    }

    open spec fn spec_is_multicast(&self) -> bool {
        Ipv6Addr::spec_is_multicast(*self)
    }

    fn byte_len() -> (r: usize) {
        16
    }

    fn localhost() -> (r: Ipv6Addr) {
        Ipv6Addr { bits: 1 }
    }

    fn unspecified() -> (r: Ipv6Addr) {
        Ipv6Addr { bits: 0 }
    }

    fn octets(&self) -> (r: [u8; 16]) {
        Ipv6Addr::octets(self)
    }

    fn from_bytes(b: [u8; 16]) -> (r: Ipv6Addr) {
        Ipv6Addr::from_octets(b)
    }

    fn is_unspecified(&self) -> (r: bool) {
        Ipv6Addr::is_unspecified(self)
    }

    fn is_loopback(&self) -> (r: bool) {
        Ipv6Addr::is_loopback(self)
    }

    fn is_multicast(&self) -> (r: bool) {
        Ipv6Addr::is_multicast(self)
    }

    open spec fn spec_from_text(s: Seq<u8>) -> Result<Ipv6Addr, FormatError> {
        ipv6_from_text(s)
    }

    open spec fn spec_text(&self) -> Seq<char> {
        ipv6_text(*self)
    }

    fn parse(s: &str) -> (r: Result<Ipv6Addr, FormatError>) {
        Ipv6Addr::parse(s)
    }

    fn to_text(&self) -> (r: String) {
        Ipv6Addr::to_text(self)
    }

    open spec fn spec_to_ip_addr(&self) -> IpAddr {
        IpAddr::V6(*self)
    }

    fn to_ip_addr(&self) -> (r: IpAddr) {
        IpAddr::V6(*self)
    }

    proof fn lemma_octets_round_trip(a: Ipv6Addr) {
        lemma_ipv6_octets_round_trip(a);
    }

    proof fn lemma_classes_exclusive(a: Ipv6Addr) {
        lemma_ipv6_classes_exclusive(a);
    }
}

impl IpFamilySocketAddr for SocketAddrV6 {
    type Family = IpFamilyV6;

    type Addr = Ipv6Addr;

    open spec fn spec_ip(&self) -> Ipv6Addr {
        self.ip
    }

    open spec fn spec_port(&self) -> u16 {
        self.port
    }

    open spec fn spec_to_socket_addr(&self) -> SocketAddr {
        SocketAddr::V6(*self)
    }

    /// Flow label and scope id are zero.
    fn new(ip: Ipv6Addr, port: u16) -> (r: SocketAddrV6)
        ensures
            r.flowinfo == 0,
            r.scope_id == 0,
    {
        SocketAddrV6 { ip, port, flowinfo: 0, scope_id: 0 }
    }

    fn ip(&self) -> (r: Ipv6Addr) {
        self.ip
    }

    /// Flow label and scope id stay.
    fn set_ip(&mut self, new_ip: Ipv6Addr)
        ensures
            final(self).flowinfo == old(self).flowinfo,
            final(self).scope_id == old(self).scope_id,
    {
        self.ip = new_ip;
    }

    fn port(&self) -> (r: u16) {
        self.port
    }

    /// Flow label and scope id stay.
    fn set_port(&mut self, new_port: u16)
        ensures
            final(self).flowinfo == old(self).flowinfo,
            final(self).scope_id == old(self).scope_id,
    {
        self.port = new_port;
    }

    open spec fn spec_from_text(s: Seq<u8>) -> Result<SocketAddrV6, FormatError> {
        socket_v6_from_text(s)
    }

    open spec fn spec_text(&self) -> Seq<char> {
        socket_v6_text(*self)
    }

    fn parse(s: &str) -> (r: Result<SocketAddrV6, FormatError>) {
        SocketAddrV6::parse(s)
    }

    fn to_text(&self) -> (r: String) {
        SocketAddrV6::to_text(self)
    }

    fn to_socket_addr(&self) -> (r: SocketAddr) {
        SocketAddr::V6(*self)
    }
}

} // verus!
