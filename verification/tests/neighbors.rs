use netpulsar::ip::{parse_ipv4_text, IpAddress, MacAddress};
use netpulsar::neigh::{
    code_to_error, collect_neighbors, is_interesting_state, message_to_arppair, nlmsg_align,
    parse_mac_bytes, parse_mac_str, parse_netlink_neigh_dump, parse_proc_arp, parse_routing_dump,
    roundup, NeighborError, NeighborState, NeighborTable,
};
use netpulsar::neighscan::{build_neighbor_report, neighbor_scan_default};

fn le32(v: u32) -> [u8; 4] {
    [v as u8, (v >> 8) as u8, (v >> 16) as u8, (v >> 24) as u8]
}

fn le16(v: u16) -> [u8; 2] {
    [v as u8, (v >> 8) as u8]
}

/// One RTM_NEWNEIGH message carrying a destination and a link-layer
/// address, followed by a DONE message, as one netlink datagram.
fn netlink_dump_bytes(seq: u32, state: u16, ip: [u8; 4], mac: [u8; 6]) -> Vec<u8> {
    let mut msg: Vec<u8> = Vec::new();
    // nlmsghdr: length 46, type RTM_NEWNEIGH (28), flags 0, seq, pid 0
    msg.extend_from_slice(&le32(46));
    msg.extend_from_slice(&le16(28));
    msg.extend_from_slice(&le16(0));
    msg.extend_from_slice(&le32(seq));
    msg.extend_from_slice(&le32(0));
    // ndmsg: family AF_INET, pad, ifindex 2, state, flags 0, type 0
    msg.push(2);
    msg.extend_from_slice(&[0, 0, 0]);
    msg.extend_from_slice(&le32(2));
    msg.extend_from_slice(&le16(state));
    msg.push(0);
    msg.push(0);
    // attribute NDA_DST: length 8, type 1, the IPv4 address
    msg.extend_from_slice(&le16(8));
    msg.extend_from_slice(&le16(1));
    msg.extend_from_slice(&ip);
    // attribute NDA_LLADDR: length 10, type 2, the MAC
    msg.extend_from_slice(&le16(10));
    msg.extend_from_slice(&le16(2));
    msg.extend_from_slice(&mac);
    // align to four bytes before the next message
    msg.extend_from_slice(&[0, 0]);
    // NLMSG_DONE
    msg.extend_from_slice(&le32(16));
    msg.extend_from_slice(&le16(3));
    msg.extend_from_slice(&le16(0));
    msg.extend_from_slice(&le32(seq));
    msg.extend_from_slice(&le32(0));
    msg
}

#[test]
fn netlink_dump_yields_the_gateway_entry() {
    // The neighbor table after an ARP-generating probe to the gateway
    // holds the gateway with its six-octet MAC.
    let gateway = [192u8, 168, 1, 1];
    let mac = [0xaau8, 0xbb, 0xcc, 0xdd, 0xee, 0xff];
    let buf = netlink_dump_bytes(77, 0x02, gateway, mac);
    let (pairs, done, err) = parse_netlink_neigh_dump(&buf, 77);
    assert!(done);
    assert!(err.is_none());
    assert_eq!(pairs.len(), 1);
    assert_eq!(pairs[0].0, IpAddress::V4(gateway));
    assert_eq!(pairs[0].1.octets, mac);
    let mut table = NeighborTable::new();
    collect_neighbors(&mut table, &pairs);
    let got = table.get(&IpAddress::V4(gateway)).expect("gateway entry");
    assert_eq!(got.octets, mac);
}

#[test]
fn netlink_dump_skips_incomplete_entries() {
    let buf = netlink_dump_bytes(5, 0x01, [10, 0, 0, 9], [1, 2, 3, 4, 5, 6]);
    let (pairs, done, err) = parse_netlink_neigh_dump(&buf, 5);
    assert!(done);
    assert!(err.is_none());
    assert!(pairs.is_empty());
}

#[test]
fn netlink_dump_skips_other_sequence_numbers() {
    let buf = netlink_dump_bytes(5, 0x02, [10, 0, 0, 9], [1, 2, 3, 4, 5, 6]);
    let (pairs, done, _) = parse_netlink_neigh_dump(&buf, 6);
    assert!(pairs.is_empty());
    assert!(!done);
}

#[test]
fn proc_arp_fallback_parses_complete_entries() {
    let text = b"IP address       HW type     Flags       HW address            Mask     Device\n\
192.168.1.1      0x1         0x2         aa:bb:cc:dd:ee:ff     *        eth0\n\
192.168.1.7      0x1         0x0         00:00:00:00:00:00     *        eth0\n";
    let pairs = parse_proc_arp(text);
    assert_eq!(pairs.len(), 1);
    assert_eq!(pairs[0].0, IpAddress::V4([192, 168, 1, 1]));
    assert_eq!(pairs[0].1.octets, [0xaa, 0xbb, 0xcc, 0xdd, 0xee, 0xff]);
}

#[test]
fn mac_text_forms() {
    assert_eq!(
        parse_mac_str("00:11:22:33:44:55").map(|m| m.octets),
        Some([0x00, 0x11, 0x22, 0x33, 0x44, 0x55])
    );
    assert_eq!(
        parse_mac_str("a-B-c-1-2-3").map(|m| m.octets),
        Some([0x0a, 0x0b, 0x0c, 1, 2, 3])
    );
    assert_eq!(parse_mac_bytes(b"00:11:22:33:44"), None);
    assert_eq!(parse_mac_bytes(b"00:11:22:33:44:55:66"), None);
    assert_eq!(parse_mac_bytes(b"001:11:22:33:44:55"), None);
    assert_eq!(parse_mac_bytes(b"0g:11:22:33:44:55"), None);
    assert_eq!(parse_mac_bytes(b""), None);
}

#[test]
fn ipv4_text_forms() {
    assert_eq!(parse_ipv4_text(b"192.0.2.1"), Some(IpAddress::V4([192, 0, 2, 1])));
    assert_eq!(parse_ipv4_text(b"0.0.0.0"), Some(IpAddress::V4([0, 0, 0, 0])));
    assert_eq!(parse_ipv4_text(b"255.255.255.255"), Some(IpAddress::V4([255, 255, 255, 255])));
    assert_eq!(parse_ipv4_text(b"256.0.0.1"), None);
    assert_eq!(parse_ipv4_text(b"01.2.3.4"), None);
    assert_eq!(parse_ipv4_text(b"1.2.3"), None);
    assert_eq!(parse_ipv4_text(b"1.2.3.4.5"), None);
    assert_eq!(parse_ipv4_text(b""), None);
}

/// A routing-socket record: the 92-byte header, then a `sockaddr_in` and
/// a `sockaddr_dl` carrying the pair.
fn routing_record(ip: [u8; 4], mac: [u8; 6]) -> Vec<u8> {
    let mut block: Vec<u8> = Vec::new();
    // sockaddr_in: len 16, family AF_INET, port, address, zeros
    block.push(16);
    block.push(2);
    block.extend_from_slice(&[0, 0]);
    block.extend_from_slice(&ip);
    block.extend_from_slice(&[0u8; 8]);
    // sockaddr_dl: len 20, family AF_LINK, index, type, nlen 4, alen 6,
    // slen 0, then four name bytes and the six MAC octets.
    block.push(20);
    block.push(18);
    block.extend_from_slice(&[0, 0]);
    block.push(0);
    block.push(4);
    block.push(6);
    block.push(0);
    block.extend_from_slice(b"eth0");
    block.extend_from_slice(&mac);
    block.extend_from_slice(&[0, 0]);
    let mut rec = vec![0u8; 92];
    let total = (92 + block.len()) as u16;
    rec[0] = total as u8;
    rec[1] = (total >> 8) as u8;
    rec[2] = 5; // version
    rec.extend_from_slice(&block);
    rec
}

#[test]
fn routing_dump_yields_the_pair() {
    let ip = [172u8, 16, 0, 1];
    let mac = [2u8, 4, 6, 8, 10, 12];
    let dump = routing_record(ip, mac);
    let table = parse_routing_dump(&dump).expect("dump parses");
    let got = table.get(&IpAddress::V4(ip)).expect("entry");
    assert_eq!(got.octets, mac);
}

#[test]
fn routing_dump_reports_record_errors() {
    let mut dump = routing_record([172, 16, 0, 1], [2, 4, 6, 8, 10, 12]);
    // A nonzero errno word aborts the dump.
    dump[24] = 3;
    match parse_routing_dump(&dump) {
        Err(e) => assert_eq!(e, NeighborError::NotFound),
        Ok(_) => panic!("expected the dump to abort"),
    }
}

#[test]
fn arppair_extraction_from_address_block() {
    let ip = [10u8, 1, 2, 3];
    let mac = [9u8, 8, 7, 6, 5, 4];
    let rec = routing_record(ip, mac);
    let pair = message_to_arppair(&rec[92..]).expect("pair");
    assert_eq!(pair.0, IpAddress::V4(ip));
    assert_eq!(pair.1.octets, mac);
    // A block of zeros yields nothing.
    assert_eq!(message_to_arppair(&[0u8; 32]), None);
}

#[test]
fn alignment_helpers() {
    assert_eq!(nlmsg_align(0), 0);
    assert_eq!(nlmsg_align(1), 4);
    assert_eq!(nlmsg_align(4), 4);
    assert_eq!(nlmsg_align(5), 8);
    assert_eq!(roundup(0), 4);
    assert_eq!(roundup(1), 4);
    assert_eq!(roundup(4), 4);
    assert_eq!(roundup(5), 8);
}

#[test]
fn errno_classes() {
    assert_eq!(code_to_error(17), NeighborError::AlreadyExists);
    assert_eq!(code_to_error(3), NeighborError::NotFound);
    assert_eq!(code_to_error(3436), NeighborError::OutOfMemory);
    assert_eq!(code_to_error(99), NeighborError::Other);
}

#[test]
fn interesting_states_exclude_incomplete() {
    assert!(is_interesting_state(NeighborState::Permanent));
    assert!(is_interesting_state(NeighborState::Reachable));
    assert!(is_interesting_state(NeighborState::Stale));
    assert!(is_interesting_state(NeighborState::Delay));
    assert!(is_interesting_state(NeighborState::Probe));
    assert!(!is_interesting_state(NeighborState::Incomplete));
}

#[test]
fn neighbor_table_keys_are_unique() {
    let ip = IpAddress::V4([10, 0, 0, 1]);
    let other = IpAddress::V4([10, 0, 0, 2]);
    let mut table = NeighborTable::new();
    table.insert(ip, MacAddress::from_octets([1, 1, 1, 1, 1, 1]));
    table.insert(other, MacAddress::from_octets([9, 9, 9, 9, 9, 9]));
    table.insert(ip, MacAddress::from_octets([2, 2, 2, 2, 2, 2]));
    // The later registration replaced the earlier one.
    assert_eq!(table.get(&ip).map(|m| m.octets), Some([2, 2, 2, 2, 2, 2]));
    // An iteration sees each key once, with its latest value.
    let pairs = table.to_pairs();
    assert_eq!(pairs.len(), 2);
    assert!(pairs.contains(&(ip, MacAddress::from_octets([2, 2, 2, 2, 2, 2]))));
    assert!(pairs.contains(&(other, MacAddress::from_octets([9, 9, 9, 9, 9, 9]))));
}

#[test]
fn neighbor_scan_default_covers_the_gateway_net() {
    let s = neighbor_scan_default(Some([192, 168, 1, 1]));
    assert_eq!(s.targets.len(), 254);
    assert_eq!(s.targets[0], IpAddress::V4([192, 168, 1, 1]));
    assert_eq!(s.targets[253], IpAddress::V4([192, 168, 1, 254]));
    assert_eq!(s.count, 1);
    assert_eq!(s.timeout_ms, 1000);
    assert!(s.ordered);
    assert_eq!(s.payload.as_deref(), Some("np:neigh"));
    assert!(neighbor_scan_default(None).targets.is_empty());
}

#[test]
fn neighbor_report_joins_table_and_tags() {
    let gw = IpAddress::V4([192, 168, 1, 1]);
    let me = IpAddress::V4([192, 168, 1, 50]);
    let other = IpAddress::V4([192, 168, 1, 9]);
    let mut table = NeighborTable::new();
    table.insert(gw, MacAddress::from_octets([0xaa, 0xbb, 0xcc, 0xdd, 0xee, 0xff]));
    let alive = vec![(gw, 2u64), (me, 0u64), (other, 7u64)];
    let report = build_neighbor_report(
        String::from("run"),
        &alive,
        254,
        &table,
        &vec![me],
        &vec![gw],
        &vec![gw],
    );
    assert_eq!(report.total, 254);
    assert_eq!(report.neighbors.len(), 3);
    // The gateway answered and its MAC comes from the neighbor table.
    assert_eq!(
        report.neighbors[0].mac_addr.map(|m| m.octets),
        Some([0xaa, 0xbb, 0xcc, 0xdd, 0xee, 0xff])
    );
    assert_eq!(report.neighbors[0].rtt_ms, Some(2));
    assert_eq!(report.neighbors[0].tags, vec![String::from("Gateway"), String::from("DNS")]);
    assert_eq!(report.neighbors[1].tags, vec![String::from("Self")]);
    assert!(report.neighbors[1].mac_addr.is_none());
    assert!(report.neighbors[2].tags.is_empty());
}
