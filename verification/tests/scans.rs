use netpulsar::error::IoErrorKind;
use netpulsar::hostscan::{
    families_needed, order_targets, HostScanRunner, HostState, PendingTable,
};
use netpulsar::ip::IpAddress;
use netpulsar::portscan::{
    classify_quic_error, classify_tcp_error, expand_ports, order_ports, PortScanProtocol,
    PortScanRunner, PortState, TargetPortsPreset,
};

#[test]
fn pending_table_demuxes_by_address() {
    let a = IpAddress::V4([192, 0, 2, 1]);
    let b = IpAddress::V4([192, 0, 2, 2]);
    let unknown = IpAddress::V4([192, 0, 2, 3]);
    let mut table = PendingTable::new();
    table.insert(a, 11);
    table.insert(b, 22);
    // A reply from an unknown source finds nothing and is dropped.
    assert_eq!(table.remove(unknown), None);
    // A reply from a registered source takes its entry out.
    assert_eq!(table.remove(a), Some(11));
    assert_eq!(table.remove(a), None);
    // Re-registering replaces the earlier ticket.
    table.insert(b, 33);
    assert_eq!(table.remove(b), Some(33));
    assert_eq!(table.remove(b), None);
    assert_eq!(table.len(), 0);
}

#[test]
fn host_scan_two_unreachable_targets() {
    // Two probes into a sink: both time out, both are unreachable, and
    // the counter ends at the total.
    let targets = vec![IpAddress::V4([192, 0, 2, 1]), IpAddress::V4([192, 0, 2, 2])];
    let mut runner = HostScanRunner::new(String::from("run"), targets.clone());
    assert_eq!(runner.total(), 2);
    let p1 = runner.record(targets[0], None, Some(String::from("timeout (>200ms)")));
    assert_eq!(p1.state, HostState::Unreachable);
    assert_eq!(p1.done, 1);
    let p2 = runner.record(targets[1], None, Some(String::from("timeout (>200ms)")));
    assert_eq!(p2.done, 2);
    assert_eq!(p2.total, 2);
    assert!(p1.done < p2.done);
    assert!(runner.is_complete());
    let report = runner.finish();
    assert_eq!(report.total, 2);
    assert_eq!(report.alive.len(), 0);
    assert_eq!(report.unreachable.len(), 2);
    assert_eq!(report.alive.len() + report.unreachable.len(), report.total as usize);
}

#[test]
fn host_scan_groups_alive_and_unreachable() {
    let targets = vec![
        IpAddress::V4([10, 0, 0, 1]),
        IpAddress::V4([10, 0, 0, 2]),
        IpAddress::V4([10, 0, 0, 3]),
    ];
    let mut runner = HostScanRunner::new(String::from("run"), targets.clone());
    // Results may arrive in any order.
    let p = runner.record(targets[2], Some(5), None);
    assert_eq!(p.state, HostState::Alive);
    assert_eq!(p.rtt_ms, Some(5));
    assert_eq!(p.message, None);
    let _ = runner.record(targets[0], None, Some(String::from("send error: host down")));
    let _ = runner.record(targets[1], Some(9), None);
    let report = runner.finish();
    assert_eq!(report.alive, vec![(targets[2], 5), (targets[1], 9)]);
    assert_eq!(report.unreachable, vec![targets[0]]);
    assert_eq!(report.total, 3);
}

#[test]
fn host_scan_empty_target_list() {
    // No targets: the report is empty with a zero total and the scan is
    // complete at once, so nothing beyond start and done is emitted.
    let runner = HostScanRunner::new(String::from("run"), vec![]);
    assert!(runner.is_complete());
    let report = runner.finish();
    assert_eq!(report.total, 0);
    assert!(report.alive.is_empty());
    assert!(report.unreachable.is_empty());
}

#[test]
fn mixed_families_need_two_sockets() {
    let v4only = vec![IpAddress::V4([10, 0, 0, 1])];
    assert_eq!(families_needed(&v4only), (true, false));
    let mixed = vec![
        IpAddress::V4([10, 0, 0, 1]),
        IpAddress::V6([0xfe, 0x80, 0, 0, 0, 0, 0, 0, 0, 0, 0, 0, 0, 0, 0, 1]),
    ];
    assert_eq!(families_needed(&mixed), (true, true));
    assert_eq!(families_needed(&vec![]), (false, false));
}

#[test]
fn ordering_keeps_the_targets() {
    let original = vec![
        IpAddress::V4([10, 0, 0, 1]),
        IpAddress::V4([10, 0, 0, 2]),
        IpAddress::V4([10, 0, 0, 3]),
    ];
    let mut kept = original.clone();
    order_targets(&mut kept, true);
    assert_eq!(kept, original);
    let mut shuffled = original.clone();
    order_targets(&mut shuffled, false);
    assert_eq!(shuffled.len(), original.len());
    for t in &original {
        assert!(shuffled.contains(t));
    }
}

#[test]
fn tcp_error_classification_table() {
    assert_eq!(classify_tcp_error(IoErrorKind::TimedOut), PortState::Filtered);
    assert_eq!(classify_tcp_error(IoErrorKind::NetworkUnreachable), PortState::Filtered);
    assert_eq!(classify_tcp_error(IoErrorKind::HostUnreachable), PortState::Filtered);
    assert_eq!(classify_tcp_error(IoErrorKind::AddrNotAvailable), PortState::Filtered);
    assert_eq!(classify_tcp_error(IoErrorKind::ConnectionRefused), PortState::Closed);
    assert_eq!(classify_tcp_error(IoErrorKind::ConnectionReset), PortState::Closed);
    assert_eq!(classify_tcp_error(IoErrorKind::NotConnected), PortState::Closed);
    assert_eq!(classify_tcp_error(IoErrorKind::Other), PortState::Closed);
}

#[test]
fn quic_error_classification() {
    assert_eq!(classify_quic_error(IoErrorKind::TimedOut), PortState::Filtered);
    assert_eq!(classify_quic_error(IoErrorKind::ConnectionRefused), PortState::Closed);
    assert_eq!(classify_quic_error(IoErrorKind::Other), PortState::Closed);
}

#[test]
fn preset_expansion() {
    let custom = expand_ports(&TargetPortsPreset::Custom, &vec![8080, 22]);
    assert_eq!(custom, vec![8080, 22]);
    let well_known = expand_ports(&TargetPortsPreset::WellKnown, &vec![]);
    assert_eq!(well_known.len(), 1023);
    assert_eq!(well_known[0], 1);
    assert_eq!(well_known[1022], 1023);
    let top = expand_ports(&TargetPortsPreset::Top1000, &vec![]);
    assert_eq!(top.len(), 1000);
    assert_eq!(top[999], 1000);
    let full = expand_ports(&TargetPortsPreset::Full, &vec![]);
    assert_eq!(full.len(), 65535);
    assert_eq!(full[65534], 65535);
    let common = expand_ports(&TargetPortsPreset::Common, &vec![]);
    assert!(common.contains(&22));
    assert!(common.contains(&443));
}

#[test]
fn port_scan_keeps_only_open_ports_sorted() {
    // Two ports probed: 22 answers, 65534 is refused. Every port gets
    // exactly one progress record; the report keeps only the open one.
    let ip = IpAddress::V4([127, 0, 0, 1]);
    let mut runner = PortScanRunner::new(String::from("run"), vec![22, 65534]);
    assert_eq!(runner.total(), 2);
    let s1 = runner.record(
        ip,
        65534,
        classify_tcp_error(IoErrorKind::ConnectionRefused),
        None,
        Some(String::from("Connection refused (os error 111)")),
        None,
    );
    assert_eq!(s1.state, PortState::Closed);
    assert_eq!(s1.done, 1);
    let s2 = runner.record(ip, 22, PortState::Open, Some(4), None, Some(String::from("ssh")));
    assert_eq!(s2.done, 2);
    assert!(runner.is_complete());
    let report = runner.finish(ip, None, PortScanProtocol::Tcp);
    assert_eq!(report.samples.len(), 1);
    assert_eq!(report.samples[0].port, 22);
    assert_eq!(report.samples[0].state, PortState::Open);
    assert_eq!(report.samples[0].rtt_ms, Some(4));
    assert_eq!(report.samples[0].service_name.as_deref(), Some("ssh"));
}

#[test]
fn port_scan_report_sorted_by_port() {
    let ip = IpAddress::V4([127, 0, 0, 1]);
    let ports = vec![443, 22, 80];
    let mut runner = PortScanRunner::new(String::from("run"), ports);
    let _ = runner.record(ip, 443, PortState::Open, Some(9), None, None);
    let _ = runner.record(ip, 22, PortState::Open, Some(2), None, None);
    let _ = runner.record(ip, 80, PortState::Open, Some(5), None, None);
    let report = runner.finish(ip, None, PortScanProtocol::Tcp);
    let got: Vec<u16> = report.samples.iter().map(|s| s.port).collect();
    assert_eq!(got, vec![22, 80, 443]);
}

#[test]
fn port_ordering_keeps_the_ports() {
    let original = vec![22u16, 80, 443, 8080];
    let mut kept = original.clone();
    order_ports(&mut kept, true);
    assert_eq!(kept, original);
    let mut shuffled = original.clone();
    order_ports(&mut shuffled, false);
    assert_eq!(shuffled.len(), original.len());
    for p in &original {
        assert!(shuffled.contains(p));
    }
}
