use netpulsar::codec::{
    build_echo, build_echo_reply_v4, build_echo_reply_v6, build_echo_v4, build_echo_v6, checksum,
    is_destination_unreachable_v4, is_destination_unreachable_v6, is_echo_reply,
    parse_echo_reply_v4, parse_echo_reply_v6,
};
use netpulsar::ip::IpAddress;

/// A minimal 20-byte IPv4 header carrying ICMP (protocol 1).
fn ipv4_icmp_header() -> Vec<u8> {
    let mut hdr = vec![0u8; 20];
    hdr[0] = 0x45; // version 4, IHL 5
    hdr[9] = 1; // protocol: ICMP
    hdr
}

#[test]
fn checksum_of_empty_buffer_is_all_ones() {
    assert_eq!(checksum(&[]), 0xffff);
}

#[test]
fn checksum_known_value() {
    // Words 0001 f203 f4f5 f6f7 sum to 2ddf0, fold to ddf2; the
    // complement is 220d.
    let data = [0x00u8, 0x01, 0xf2, 0x03, 0xf4, 0xf5, 0xf6, 0xf7];
    assert_eq!(checksum(&data), 0x220d);
}

#[test]
fn echo_request_layout_and_checksum_validity() {
    let pkt = build_echo_v4(0x1234, 7, b"np:ping");
    assert_eq!(pkt[0], 8);
    assert_eq!(pkt[1], 0);
    assert_eq!(pkt[4], 0x12);
    assert_eq!(pkt[5], 0x34);
    assert_eq!(pkt[6], 0);
    assert_eq!(pkt[7], 7);
    assert_eq!(&pkt[8..], b"np:ping");
    // A correct internet checksum makes the whole message sum to zero.
    assert_eq!(checksum(&pkt), 0);
}

#[test]
fn echo_round_trip_v4() {
    let reply = build_echo_reply_v4(0x1234, 42, b"np:ping");
    let mut buf = ipv4_icmp_header();
    buf.extend_from_slice(&reply);
    assert_eq!(parse_echo_reply_v4(&buf), Some((0x1234, 42)));
}

#[test]
fn echo_round_trip_v4_with_options_header() {
    // IHL 6: a header of 24 bytes.
    let reply = build_echo_reply_v4(0xbeef, 3, b"x");
    let mut buf = vec![0u8; 24];
    buf[0] = 0x46;
    buf[9] = 1;
    buf.extend_from_slice(&reply);
    assert_eq!(parse_echo_reply_v4(&buf), Some((0xbeef, 3)));
}

#[test]
fn echo_request_does_not_parse_as_reply() {
    let request = build_echo_v4(0x1234, 42, b"np:ping");
    let mut buf = ipv4_icmp_header();
    buf.extend_from_slice(&request);
    assert_eq!(parse_echo_reply_v4(&buf), None);
}

#[test]
fn parse_rejects_wrong_protocol_and_truncation() {
    let reply = build_echo_reply_v4(1, 1, b"");
    let mut buf = ipv4_icmp_header();
    buf[9] = 17; // UDP, not ICMP
    buf.extend_from_slice(&reply);
    assert_eq!(parse_echo_reply_v4(&buf), None);

    let short = vec![0x45u8; 19];
    assert_eq!(parse_echo_reply_v4(&short), None);
}

#[test]
fn echo_round_trip_v6() {
    let src = [0xfeu8, 0x80, 0, 0, 0, 0, 0, 0, 0, 0, 0, 0, 0, 0, 0, 1];
    let dst = [0xfeu8, 0x80, 0, 0, 0, 0, 0, 0, 0, 0, 0, 0, 0, 0, 0, 2];
    // The kernel strips the IPv6 header, so the reply parses as-is.
    let reply = build_echo_reply_v6(&src, &dst, 0x4321, 9, b"np:ping");
    assert_eq!(reply[0], 129);
    assert_eq!(parse_echo_reply_v6(&reply), Some((0x4321, 9)));
    // A request (type 128) does not parse as a reply.
    let request = build_echo_v6(&src, &dst, 0x4321, 9, b"np:ping");
    assert_eq!(request[0], 128);
    assert_eq!(parse_echo_reply_v6(&request), None);
}

#[test]
fn destination_unreachable_classification() {
    let mut v4 = ipv4_icmp_header();
    v4.extend_from_slice(&[3, 1, 0, 0, 0, 0, 0, 0]); // type 3, any code
    assert!(is_destination_unreachable_v4(&v4));
    let mut not_unreach = ipv4_icmp_header();
    not_unreach.extend_from_slice(&[0, 0, 0, 0, 0, 0, 0, 0]);
    assert!(!is_destination_unreachable_v4(&not_unreach));

    let v6 = [1u8, 4, 0, 0, 0, 0, 0, 0];
    assert!(is_destination_unreachable_v6(&v6));
    let v6_echo = [129u8, 0, 0, 0, 0, 0, 0, 0];
    assert!(!is_destination_unreachable_v6(&v6_echo));
}

#[test]
fn build_echo_rejects_mixed_families() {
    let v4 = IpAddress::V4([127, 0, 0, 1]);
    let v6 = IpAddress::V6([0; 16]);
    assert!(build_echo(&v4, &v6, 1, 1, b"x").is_err());
    assert!(build_echo(&v6, &v4, 1, 1, b"x").is_err());
    assert!(build_echo(&v4, &v4, 1, 1, b"x").is_ok());
    assert!(build_echo(&v6, &v6, 1, 1, b"x").is_ok());
}

#[test]
fn is_echo_reply_dispatches_by_family() {
    let v4 = IpAddress::V4([192, 0, 2, 1]);
    let v6 = IpAddress::V6([0xfe, 0x80, 0, 0, 0, 0, 0, 0, 0, 0, 0, 0, 0, 0, 0, 2]);
    let reply4 = {
        let mut buf = ipv4_icmp_header();
        buf.extend_from_slice(&build_echo_reply_v4(1, 1, b""));
        buf
    };
    let src = [0u8; 16];
    let reply6 = build_echo_reply_v6(&src, &src, 1, 1, b"");
    assert!(is_echo_reply(&v4, &reply4));
    assert!(!is_echo_reply(&v6, &reply4));
    assert!(is_echo_reply(&v6, &reply6));
    assert!(!is_echo_reply(&v4, &reply6));
}
