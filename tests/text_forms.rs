use ip_family::addr::{IpAddr, Ipv4Addr, Ipv6Addr};
use ip_family::capability::{IpFamilyAddr, IpFamilySocketAddr};
use ip_family::family::{IpFamily, IpFamilyExt};
use ip_family::socket::{SocketAddr, SocketAddrV4, SocketAddrV6};
use ip_family::text::{parse_ipv6, parse_socket, FormatError};

fn v6(text: &str) -> Ipv6Addr {
    text.parse().unwrap()
}

#[test]
fn v6_socket_from_parsed_loopback() {
    let ip = <Ipv6Addr as IpFamilyAddr>::parse("::1").unwrap();
    let s = <SocketAddrV6 as IpFamilySocketAddr>::new(ip, 8080);
    assert_eq!(s.to_text(), "[::1]:8080");
    assert_eq!(s.flowinfo(), 0);
    assert_eq!(s.scope_id(), 0);
    assert_eq!(IpFamilySocketAddr::to_text(&s), "[::1]:8080");
}

#[test]
fn ipv6_parse_forms() {
    assert_eq!(v6("::1").to_bits(), 1);
    assert_eq!(v6("::").to_bits(), 0);
    assert_eq!(v6("1::").to_bits(), 1u128 << 112);
    assert_eq!(v6("2001:db8::1").to_bits(), 0x2001_0db8_0000_0000_0000_0000_0000_0001);
    assert_eq!(v6("1:2:3:4:5:6:7:8").to_bits(), 0x0001_0002_0003_0004_0005_0006_0007_0008);
    assert_eq!(v6("1:2:3:4:5:6:7::").to_bits(), 0x0001_0002_0003_0004_0005_0006_0007_0000);
    assert_eq!(v6("::2:3:4:5:6:7:8").to_bits(), 0x0000_0002_0003_0004_0005_0006_0007_0008);
    assert_eq!(v6("::ffff:192.168.1.1").to_bits(), 0xffff_c0a8_0101);
    assert_eq!(v6("::1.2.3.4").to_bits(), 0x0102_0304);
    assert_eq!(v6("1:2:3:4:5:6:1.2.3.4").to_bits(), 0x0001_0002_0003_0004_0005_0006_0102_0304);
    assert_eq!(v6("ABCD:ef01::").to_bits(), 0xabcd_ef01u128 << 96);
}

#[test]
fn ipv6_parse_rejects_malformed_text() {
    let bad = [
        "", ":", ":::", "1", "1:2:3:4:5:6:7", "1:2:3:4:5:6:7:8:9", "1:2:3:4::5:6:7:8", "1::2::3",
        "12345::", ":1::", "1.2.3.4::", "::g", "1:2:3:4:5:6:7:1.2.3.4", "::1.2.3", "[::1]",
    ];
    for text in bad {
        assert_eq!(parse_ipv6(text.as_bytes()), Err(FormatError), "{}", text);
    }
}

#[test]
fn ipv6_text_compresses_longest_zero_run() {
    assert_eq!(Ipv6Addr::from(1u128).to_text(), "::1");
    assert_eq!(Ipv6Addr::from(0u128).to_text(), "::");
    assert_eq!(v6("2001:db8::1").to_text(), "2001:db8::1");
    assert_eq!(v6("1:0:0:1:0:0:0:1").to_text(), "1:0:0:1::1");
    assert_eq!(v6("1:0:0:1:0:0:1:1").to_text(), "1::1:0:0:1:1");
    assert_eq!(v6("1:0:1:1:1:1:1:1").to_text(), "1:0:1:1:1:1:1:1");
    assert_eq!(v6("1::").to_text(), "1::");
    assert_eq!(v6("::ffff:1.2.3.4").to_text(), "::ffff:1.2.3.4");
    assert_eq!(v6("FF02::1").to_text(), "ff02::1");
    assert_eq!(v6("1:2:3:4:5:6:7:8").segments(), [1, 2, 3, 4, 5, 6, 7, 8]);
}

#[test]
fn ipv4_and_generic_text() {
    assert_eq!(Ipv4Addr::new(192, 168, 1, 1).to_text(), "192.168.1.1");
    assert_eq!(Ipv4Addr::new(0, 0, 0, 0).to_text(), "0.0.0.0");
    assert_eq!(IpFamily::V4.localhost().to_text(), "127.0.0.1");
    assert_eq!(IpFamily::V6.unspecified().to_text(), "::");
    assert_eq!(IpAddr::V4(Ipv4Addr::new(10, 20, 30, 40)).to_text(), "10.20.30.40");
}

#[test]
fn socket_text_forms() {
    let s4 = <SocketAddrV4 as IpFamilySocketAddr>::new(Ipv4Addr::new(10, 0, 0, 1), 80);
    assert_eq!(s4.to_text(), "10.0.0.1:80");
    let scoped = SocketAddrV6::with_scope(Ipv6Addr::from(1u128), 8080, 9, 5);
    assert_eq!(scoped.to_text(), "[::1%5]:8080");
    assert_eq!(SocketAddr::V4(s4).to_text(), "10.0.0.1:80");
}

#[test]
fn socket_parse_forms() {
    let s4: SocketAddrV4 = "1.2.3.4:65535".parse().unwrap();
    assert_eq!(s4.ip, Ipv4Addr::new(1, 2, 3, 4));
    assert_eq!(s4.port, 65535);
    assert_eq!(SocketAddrV4::parse("1.2.3.4:0080").unwrap().port, 80);
    assert_eq!(SocketAddrV4::parse("1.2.3.4:65536"), Err(FormatError));
    assert_eq!(SocketAddrV4::parse("1.2.3.4:"), Err(FormatError));
    assert_eq!(SocketAddrV4::parse("1.2.3.4"), Err(FormatError));
    assert_eq!(SocketAddrV4::parse("256.2.3.4:1"), Err(FormatError));

    let s6: SocketAddrV6 = "[::1]:8080".parse().unwrap();
    assert_eq!(s6, SocketAddrV6::with_scope(Ipv6Addr::from(1u128), 8080, 0, 0));
    let scoped = SocketAddrV6::parse("[fe80::1%3]:1").unwrap();
    assert_eq!(scoped.scope_id, 3);
    assert_eq!(scoped.ip.to_bits(), 0xfe80_0000_0000_0000_0000_0000_0000_0001);
    for bad in ["[::1]", "::1:80", "[::1]80", "[::1]:", "[::1%]:1", "[::1%x]:1", "[::1%4294967296]:1", "[1::2::3]:1"] {
        assert_eq!(SocketAddrV6::parse(bad), Err(FormatError), "{}", bad);
    }

    assert_eq!(parse_socket(b"10.0.0.1:5").unwrap().family(), IpFamily::V4);
    let any = parse_socket(b"[2001:db8::7]:443").unwrap();
    assert_eq!(any.family(), IpFamily::V6);
    assert_eq!(any.port(), 443);
    assert_eq!(any.to_text(), "[2001:db8::7]:443");
    assert_eq!("nonsense".parse::<SocketAddr>(), Err(FormatError));
}

#[test]
fn v6_socket_text_reads_back() {
    let s = <SocketAddrV6 as IpFamilySocketAddr>::new(v6("2001:db8::7"), 443);
    assert_eq!(SocketAddrV6::parse(&s.to_text()), Ok(s));
}
