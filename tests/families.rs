use ip_family::addr::{IpAddr, Ipv4Addr, Ipv6Addr};
use ip_family::capability::{
    AnyIpFamily, IpFamilyAddr, IpFamilySocketAddr, IpFamilyV4, IpFamilyV6,
};
use ip_family::family::{IpFamily, IpFamilyExt};
use ip_family::socket::{SocketAddr, SocketAddrV4, SocketAddrV6};
use ip_family::text::{parse_ipv4, FormatError};

fn loopback_socket<F: AnyIpFamily>(port: u16) -> F::SocketAddr {
    <F::SocketAddr as IpFamilySocketAddr>::new(<F::Addr as IpFamilyAddr>::localhost(), port)
}

#[test]
fn constants_keep_their_family() {
    for t in [IpFamily::V4, IpFamily::V6] {
        assert_eq!(t.localhost().family(), t);
        assert_eq!(t.unspecified().family(), t);
    }
}

#[test]
fn family_constants_are_the_usual_addresses() {
    assert_eq!(IpFamily::V4.localhost(), IpAddr::V4(Ipv4Addr::new(127, 0, 0, 1)));
    assert_eq!(IpFamily::V4.unspecified(), IpAddr::V4(Ipv4Addr::from(0u32)));
    assert_eq!(IpFamily::V6.localhost(), IpAddr::V6(Ipv6Addr::from(1u128)));
    assert_eq!(IpFamily::V6.unspecified(), IpAddr::V6(Ipv6Addr::from(0u128)));
    assert_eq!(<Ipv4Addr as IpFamilyAddr>::localhost().to_bits(), 0x7f00_0001);
    assert_eq!(<Ipv6Addr as IpFamilyAddr>::unspecified().to_bits(), 0);
}

#[test]
fn octets_round_trip_v4() {
    for bits in [0u32, 1, 0x7f00_0001, 0xc0a8_0101, 0xffff_ffff, 0x0102_0304] {
        let a = Ipv4Addr::from(bits);
        assert_eq!(Ipv4Addr::from(a.octets()), a);
        assert_eq!(<Ipv4Addr as IpFamilyAddr>::from_bytes(IpFamilyAddr::octets(&a)), a);
    }
    assert_eq!(Ipv4Addr::from(0x0102_0304u32).octets(), [1, 2, 3, 4]);
    assert_eq!(u32::from(Ipv4Addr::from([10, 0, 0, 1])), 0x0a00_0001);
}

#[test]
fn octets_round_trip_v6() {
    let samples = [0u128, 1, u128::MAX, 0x2001_0db8_0000_0000_0000_0000_0000_0001, 0x0102_0304_0506_0708_090a_0b0c_0d0e_0f10];
    for bits in samples {
        let a = Ipv6Addr::from(bits);
        assert_eq!(Ipv6Addr::from(a.octets()), a);
    }
    assert_eq!(
        Ipv6Addr::from(0x0102_0304_0506_0708_090a_0b0c_0d0e_0f10u128).octets(),
        [1, 2, 3, 4, 5, 6, 7, 8, 9, 10, 11, 12, 13, 14, 15, 16]
    );
    assert_eq!(<Ipv6Addr as IpFamilyAddr>::byte_len(), 16);
    assert_eq!(<Ipv4Addr as IpFamilyAddr>::byte_len(), 4);
}

#[test]
fn predicates_follow_the_bits_v4() {
    let unspecified = Ipv4Addr::new(0, 0, 0, 0);
    assert!(unspecified.is_unspecified());
    assert!(!unspecified.is_loopback());
    assert!(!unspecified.is_multicast());
    let lo = Ipv4Addr::new(127, 0, 0, 1);
    assert!(lo.is_loopback());
    assert!(!lo.is_unspecified());
    assert!(!lo.is_multicast());
    assert!(Ipv4Addr::new(127, 255, 0, 9).is_loopback());
    let mc = Ipv4Addr::new(224, 0, 0, 251);
    assert!(mc.is_multicast());
    assert!(!mc.is_loopback());
    assert!(Ipv4Addr::new(239, 255, 255, 255).is_multicast());
    assert!(!Ipv4Addr::new(240, 0, 0, 0).is_multicast());
    let plain = Ipv4Addr::new(192, 168, 1, 1);
    assert!(!plain.is_unspecified() && !plain.is_loopback() && !plain.is_multicast());
}

#[test]
fn predicates_follow_the_bits_v6() {
    let unspecified = Ipv6Addr::from(0u128);
    assert!(unspecified.is_unspecified());
    assert!(!unspecified.is_loopback());
    let lo = Ipv6Addr::from(1u128);
    assert!(lo.is_loopback());
    assert!(!lo.is_multicast());
    assert!(!Ipv6Addr::from(2u128).is_loopback());
    let mc = Ipv6Addr::from(0xff02_0000_0000_0000_0000_0000_0000_0001u128);
    assert!(mc.is_multicast());
    assert!(!mc.is_unspecified());
    assert!(!Ipv6Addr::from(0xfe80_0000_0000_0000_0000_0000_0000_0001u128).is_multicast());
}

#[test]
fn socket_family_matches_ip_family() {
    let mut s = SocketAddr::new(IpAddr::V4(Ipv4Addr::new(10, 0, 0, 1)), 80);
    assert_eq!(s.family(), s.ip().family());
    assert_eq!(s.family(), IpFamily::V4);
    s.set_ip(IpAddr::V6(Ipv6Addr::from(1u128)));
    assert_eq!(s.family(), IpFamily::V6);
    assert_eq!(s.family(), s.ip().family());
    assert_eq!(s.port(), 80);
    s.set_port(0);
    assert_eq!(s.port(), 0);
    assert_eq!(s.family(), s.ip().family());
    assert_eq!(IpFamily::from(s), IpFamily::V6);
    assert_eq!(IpFamily::from(IpAddr::V4(Ipv4Addr::new(1, 2, 3, 4))), IpFamily::V4);
}

#[test]
fn typed_socket_accessors() {
    let mut s = <SocketAddrV4 as IpFamilySocketAddr>::new(Ipv4Addr::new(10, 0, 0, 1), 8080);
    assert_eq!(IpFamilySocketAddr::port(&s), 8080);
    IpFamilySocketAddr::set_ip(&mut s, Ipv4Addr::new(10, 0, 0, 2));
    assert_eq!(IpFamilySocketAddr::ip(&s), Ipv4Addr::new(10, 0, 0, 2));
    assert_eq!(IpFamilySocketAddr::port(&s), 8080);
    IpFamilySocketAddr::set_port(&mut s, 9);
    assert_eq!(IpFamilySocketAddr::port(&s), 9);
    assert_eq!(s.family(), IpFamilySocketAddr::ip(&s).family());
    assert_eq!(s.to_socket_addr(), SocketAddr::V4(s));

    let mut t = SocketAddrV6::with_scope(Ipv6Addr::from(5u128), 1, 7, 3);
    IpFamilySocketAddr::set_port(&mut t, 2);
    assert_eq!(t.flowinfo(), 7);
    assert_eq!(t.scope_id(), 3);
    assert_eq!(SocketAddr::from(t).family(), IpFamily::V6);
}

#[test]
fn generic_code_specialises_per_family() {
    let s4 = loopback_socket::<IpFamilyV4>(53);
    assert_eq!(s4.ip, Ipv4Addr::new(127, 0, 0, 1));
    assert_eq!(s4.port, 53);
    let s6 = loopback_socket::<IpFamilyV6>(53);
    assert_eq!(s6.ip, Ipv6Addr::from(1u128));
    assert_eq!(IpFamilyV4::family(), IpFamily::V4);
    assert_eq!(IpFamilyV6::family(), IpFamily::V6);
    assert_eq!(s6.to_socket_addr().family(), IpFamilyV6::family());
}

#[test]
fn order_is_numeric_and_v4_first() {
    let a: Ipv4Addr = "10.0.0.1".parse().unwrap();
    let b: Ipv4Addr = "10.0.0.2".parse().unwrap();
    assert!(a < b);
    assert!(Ipv4Addr::new(9, 255, 255, 255) < Ipv4Addr::new(10, 0, 0, 0));
    assert!(Ipv6Addr::from(1u128) < Ipv6Addr::from(2u128));
    assert!(IpFamily::V4 < IpFamily::V6);
    assert!(IpAddr::V4(Ipv4Addr::new(255, 255, 255, 255)) < IpAddr::V6(Ipv6Addr::from(0u128)));
    assert_eq!(
        IpAddr::V4(a).family().cmp(&IpAddr::V6(Ipv6Addr::from(0u128)).family()),
        core::cmp::Ordering::Less
    );
    let mut v = vec![b, Ipv4Addr::new(1, 1, 1, 1), a];
    v.sort();
    assert_eq!(v, vec![Ipv4Addr::new(1, 1, 1, 1), a, b]);
}

#[test]
fn parse_ipv4_scenarios() {
    assert_eq!("256.0.0.1".parse::<Ipv4Addr>(), Err(FormatError));
    let a: Ipv4Addr = "192.168.1.1".parse().unwrap();
    assert_eq!(a.octets(), [192, 168, 1, 1]);
    assert_eq!(Ipv4Addr::parse("0.0.0.0"), Ok(Ipv4Addr::new(0, 0, 0, 0)));
    assert_eq!(Ipv4Addr::parse("255.255.255.255"), Ok(Ipv4Addr::from(u32::MAX)));
}

#[test]
fn parse_ipv4_rejects_malformed_text() {
    for bad in ["", "1.2.3", "1.2.3.4.5", "1..2.3", "01.2.3.4", "1.2.3.4 ", "a.b.c.d", "1.2.3.1000", ".1.2.3", "1.2.3."] {
        assert_eq!(parse_ipv4(bad.as_bytes()), Err(FormatError), "{}", bad);
    }
    assert_eq!(parse_ipv4(b"0.10.100.1"), Ok(Ipv4Addr::new(0, 10, 100, 1)));
}

#[test]
fn v6_socket_setters_keep_flow_and_scope() {
    let mut s = SocketAddrV6::with_scope(Ipv6Addr::from(5u128), 1, 7, 3);
    IpFamilySocketAddr::set_ip(&mut s, Ipv6Addr::from(6u128));
    assert_eq!((s.flowinfo(), s.scope_id()), (7, 3));
    IpFamilySocketAddr::set_port(&mut s, 65535);
    assert_eq!((s.flowinfo(), s.scope_id()), (7, 3));
    assert_eq!(s, SocketAddrV6::with_scope(Ipv6Addr::from(6u128), 65535, 7, 3));
    let fresh = <SocketAddrV6 as IpFamilySocketAddr>::new(Ipv6Addr::from(1u128), 0);
    assert_eq!(fresh, SocketAddrV6::with_scope(Ipv6Addr::from(1u128), 0, 0, 0));
}

#[test]
fn generic_socket_addresses_are_ordered() {
    let a = SocketAddr::new(IpAddr::V4(Ipv4Addr::new(10, 0, 0, 1)), 80);
    let b = SocketAddr::new(IpAddr::V4(Ipv4Addr::new(10, 0, 0, 1)), 81);
    let c = SocketAddr::new(IpAddr::V6(Ipv6Addr::from(0u128)), 1);
    let mut v = vec![c, b, a];
    v.sort();
    assert_eq!(v, vec![a, b, c]);
}
