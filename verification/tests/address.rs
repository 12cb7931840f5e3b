use sockrs5::ATYP;
use sockrs5::parse::AddrPort;
use sockrs5::parse::Parse;

#[test]
fn ipv4_encode_exact_bytes() {
    let a = AddrPort::V4([127, 0, 0, 1], 8080);
    assert_eq!(a.encode(), vec![127, 0, 0, 1, 0x1F, 0x90]);
}

#[test]
fn ipv4_round_trip() {
    let a = AddrPort::V4([192, 168, 0, 254], 65535);
    let bytes = a.encode();
    let (decoded, used) = AddrPort::decode(&bytes, ATYP::V4).unwrap();
    assert_eq!(decoded, a);
    assert_eq!(used, 6);
}

#[test]
fn ipv6_round_trip() {
    let a = AddrPort::V6([0, 1, 2, 3, 4, 5, 6, 7, 8, 9, 10, 11, 12, 13, 14, 255], 443);
    let bytes = a.encode();
    assert_eq!(bytes.len(), 18);
    assert_eq!(&bytes[16..], &[0x01, 0xBB]);
    let (decoded, used) = AddrPort::decode(&bytes, ATYP::V6).unwrap();
    assert_eq!(decoded, a);
    assert_eq!(used, 18);
}

#[test]
fn domain_round_trip_boundary_lengths() {
    for len in [1usize, 255] {
        let name = "x".repeat(len);
        let a = AddrPort::Domain(name.clone(), 80);
        let bytes = a.encode();
        assert_eq!(bytes.len(), 1 + len + 2);
        assert_eq!(bytes[0] as usize, len);
        let (decoded, used) = AddrPort::decode(&bytes, ATYP::DomainName).unwrap();
        assert_eq!(decoded, AddrPort::Domain(name, 80));
        assert_eq!(used, 1 + len + 2);
    }
}

#[test]
fn domain_encode_exact_bytes() {
    let a = AddrPort::Domain("ab".to_string(), 0x0102);
    assert_eq!(a.encode(), vec![2, b'a', b'b', 0x01, 0x02]);
}

#[test]
fn domain_decode_lossy_substitution() {
    // 0xFF 0xFE is not valid UTF-8: each byte becomes U+FFFD instead of
    // being rejected.
    let bytes = [2, 0xFF, 0xFE, 0x00, 0x50];
    let (decoded, used) = AddrPort::decode(&bytes, ATYP::DomainName).unwrap();
    assert_eq!(decoded, AddrPort::Domain("\u{FFFD}\u{FFFD}".to_string(), 80));
    assert_eq!(used, 5);
}

#[test]
fn decode_truncated_ipv4() {
    assert!(AddrPort::decode(&[127, 0, 0, 1, 0x1F], ATYP::V4).is_none());
}

#[test]
fn decode_truncated_ipv6() {
    assert!(AddrPort::decode(&[0; 17], ATYP::V6).is_none());
}

#[test]
fn decode_truncated_domain() {
    // Length prefix missing entirely.
    assert!(AddrPort::decode(&[], ATYP::DomainName).is_none());
    // Name cut short.
    assert!(AddrPort::decode(&[5, b'a', b'b'], ATYP::DomainName).is_none());
    // Port cut short.
    assert!(AddrPort::decode(&[2, b'a', b'b', 0x00], ATYP::DomainName).is_none());
}

#[test]
fn decode_ignores_trailing_bytes() {
    let (decoded, used) = AddrPort::decode(&[10, 0, 0, 1, 0x00, 0x50, 9, 9, 9], ATYP::V4).unwrap();
    assert_eq!(decoded, AddrPort::V4([10, 0, 0, 1], 80));
    assert_eq!(used, 6);
}

#[test]
fn parse_ip_port_v4() {
    let buf = [127, 0, 0, 1, 0x1F, 0x90];
    let (addr, used) = Parse::parse_ip_port(&buf, 0x01).unwrap();
    assert_eq!(addr, AddrPort::V4([127, 0, 0, 1], 8080));
    assert_eq!(used, 6);
}

#[test]
fn parse_ip_port_v6() {
    let mut buf = [0u8; 18];
    buf[15] = 1;
    buf[16] = 0x1F;
    buf[17] = 0x90;
    let (addr, used) = Parse::parse_ip_port(&buf, 0x04).unwrap();
    assert_eq!(addr, AddrPort::V6([0, 0, 0, 0, 0, 0, 0, 0, 0, 0, 0, 0, 0, 0, 0, 1], 8080));
    assert_eq!(used, 18);
}

#[test]
fn parse_ip_port_rejects_other_tags() {
    let buf = [127, 0, 0, 1, 0x1F, 0x90];
    assert!(Parse::parse_ip_port(&buf, 0x03).is_none());
    assert!(Parse::parse_ip_port(&buf, 0x00).is_none());
    assert!(Parse::parse_ip_port(&buf, 0x05).is_none());
}

#[test]
fn parse_ip_port_too_short() {
    assert!(Parse::parse_ip_port(&[1, 2, 3], 0x01).is_none());
    assert!(Parse::parse_ip_port(&[0; 17], 0x04).is_none());
}
