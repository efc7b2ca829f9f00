use netpulsar::codec::{build_echo_reply_v4, build_echo_v4};
use netpulsar::ip::IpAddress;
use netpulsar::trace::{
    is_trace_reply_terminal, sanitize_setting, udp_trace_port, TraceHop, TraceProtocol,
    TraceRunner, TracerouteSetting,
};

fn setting(max_hops: u8, tries: u8) -> TracerouteSetting {
    TracerouteSetting {
        ip_addr: IpAddress::V4([1, 1, 1, 1]),
        hostname: None,
        max_hops,
        tries_per_hop: tries,
        timeout_ms: 1000,
        protocol: TraceProtocol::Icmp,
    }
}

fn echo_reply_buffer() -> Vec<u8> {
    let mut buf = vec![0u8; 20];
    buf[0] = 0x45;
    buf[9] = 1;
    buf.extend_from_slice(&build_echo_reply_v4(0x1234, 1, b"np:trace-icmp"));
    buf
}

#[test]
fn zero_settings_take_their_defaults() {
    let s = sanitize_setting(setting(0, 0));
    assert_eq!(s.max_hops, 30);
    assert_eq!(s.tries_per_hop, 1);
    let kept = sanitize_setting(setting(5, 3));
    assert_eq!(kept.max_hops, 5);
    assert_eq!(kept.tries_per_hop, 3);
}

#[test]
fn hop_adopts_only_faster_replies() {
    let r1 = IpAddress::V4([10, 0, 0, 1]);
    let r2 = IpAddress::V4([10, 0, 0, 2]);
    let mut hop = TraceHop::pending(1);
    hop.adopt_reply(r1, 30);
    assert_eq!(hop.ip_addr, Some(r1));
    assert_eq!(hop.rtt_ms, Some(30));
    hop.adopt_reply(r2, 50);
    assert_eq!(hop.ip_addr, Some(r1));
    assert_eq!(hop.rtt_ms, Some(30));
    hop.adopt_reply(r2, 10);
    assert_eq!(hop.ip_addr, Some(r2));
    assert_eq!(hop.rtt_ms, Some(10));
}

#[test]
fn timeout_hop_record() {
    let hop = TraceHop::timeout(4);
    assert_eq!(hop.hop, 4);
    assert_eq!(hop.ip_addr, None);
    assert_eq!(hop.rtt_ms, None);
    assert!(!hop.reached);
    assert_eq!(hop.note.as_deref(), Some("timeout"));
}

#[test]
fn terminal_reply_needs_destination_source() {
    let dst = IpAddress::V4([1, 1, 1, 1]);
    let router = IpAddress::V4([10, 0, 0, 1]);
    let reply = echo_reply_buffer();
    assert!(is_trace_reply_terminal(TraceProtocol::Icmp, &dst, &dst, &reply));
    // The same packet from an intermediate router does not end the sweep.
    assert!(!is_trace_reply_terminal(TraceProtocol::Icmp, &dst, &router, &reply));
    // An Echo Request from the destination does not either.
    let mut request = vec![0u8; 20];
    request[0] = 0x45;
    request[9] = 1;
    request.extend_from_slice(&build_echo_v4(0x1234, 1, b""));
    assert!(!is_trace_reply_terminal(TraceProtocol::Icmp, &dst, &dst, &request));
}

#[test]
fn udp_terminal_is_port_unreachable_from_destination() {
    let dst = IpAddress::V4([1, 1, 1, 1]);
    let router = IpAddress::V4([10, 0, 0, 1]);
    let mut unreach = vec![0u8; 20];
    unreach[0] = 0x45;
    unreach[9] = 1;
    unreach.extend_from_slice(&[3, 3, 0, 0, 0, 0, 0, 0]);
    assert!(is_trace_reply_terminal(TraceProtocol::Udp, &dst, &dst, &unreach));
    assert!(!is_trace_reply_terminal(TraceProtocol::Udp, &dst, &router, &unreach));
}

#[test]
fn udp_probe_ports_advance_per_hop_and_try() {
    assert_eq!(udp_trace_port(1, 0), 33436);
    assert_eq!(udp_trace_port(3, 2), 33440);
}

#[test]
fn sweep_emits_hops_in_increasing_ttl_order() {
    // Up to five hops; the destination answers at hop three, so the
    // sweep ends there with `reached` and the hop numbers form a prefix.
    let mut runner = TraceRunner::new(setting(5, 1));
    let mut ttls: Vec<u8> = Vec::new();
    while !runner.is_done() {
        let ttl = runner.next_ttl();
        let mut hop = TraceHop::pending(ttl);
        if ttl == 3 {
            hop.adopt_reply(IpAddress::V4([1, 1, 1, 1]), 12);
            hop.reached = true;
        } else {
            hop.adopt_reply(IpAddress::V4([10, 0, 0, ttl]), 5);
        }
        let emitted = runner.record_hop(hop);
        ttls.push(emitted.hop);
    }
    assert_eq!(ttls, vec![1, 2, 3]);
    let (reached, hops) = runner.finish();
    assert!(reached);
    assert_eq!(hops.len(), 3);
    for (i, hop) in hops.iter().enumerate() {
        assert_eq!(hop.hop as usize, i + 1);
    }
    assert!(hops[2].reached);
    assert!(!hops[0].reached && !hops[1].reached);
}

#[test]
fn sweep_stops_at_the_ttl_budget() {
    // Nothing answers: five timeout hops are emitted, none terminal.
    let mut runner = TraceRunner::new(setting(5, 1));
    while !runner.is_done() {
        let ttl = runner.next_ttl();
        let _ = runner.record_hop(TraceHop::timeout(ttl));
    }
    let (reached, hops) = runner.finish();
    assert!(!reached);
    assert_eq!(hops.len(), 5);
    assert!(hops.iter().all(|h| !h.reached));
}
