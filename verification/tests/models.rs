use netpulsar::config::{AppConfig, LogLevel, LoggingConfig};
use netpulsar::endpoint::{Endpoint, Host, Port, TransportProtocol};
use netpulsar::error::ProbeError;
use netpulsar::http::{http_port, http_url};
use netpulsar::ip::{AddressFamily, IpAddress, MacAddress, SockAddr};
use netpulsar::netinfo::{is_ipv6, IpInfo};
use netpulsar::orchestrator::{event_channel, fresh_run_id, ProbeOp, RunPhase, RunState};
use netpulsar::ping::{parse_protocol, PingProtocol};
use netpulsar::probe::{ProbeStatus, ProbeStatusKind};
use netpulsar::sockcfg::{IcmpConfig, IcmpKind, IcmpSocketType, QuicConfig, TcpConfig, UdpConfig, UdpSocketType};
use netpulsar::sockinfo::{SocketInfoOption, SocketStatus};

#[test]
fn probe_status_constructors() {
    let ok = ProbeStatus::new();
    assert_eq!(ok.kind, ProbeStatusKind::Done);
    assert!(ok.is_ok() && !ok.is_error() && !ok.is_timeout());
    let err = ProbeStatus::with_error_message(String::from("boom"));
    assert_eq!(err.kind, ProbeStatusKind::Error);
    assert!(err.is_error());
    assert_eq!(err.message, "boom");
    let to = ProbeStatus::with_timeout_message(String::from("late"));
    assert!(to.is_timeout());
    assert_eq!(ProbeStatusKind::Done.name(), "Done");
    assert_eq!(ProbeStatusKind::Timeout.name(), "Timeout");
}

#[test]
fn probe_error_classes() {
    assert_eq!(ProbeError::Cancelled.class_name(), "Cancelled");
    assert_eq!(ProbeError::Unsupported(String::from("x")).class_name(), "Unsupported");
}

#[test]
fn addresses_and_families() {
    let v4 = IpAddress::V4([127, 0, 0, 1]);
    let v6 = IpAddress::V6([0; 16]);
    assert!(v4.is_ipv4() && !v4.is_ipv6());
    assert!(v6.is_ipv6());
    assert_eq!(v4.family(), AddressFamily::IPv4);
    assert_eq!(v6.family(), AddressFamily::IPv6);
    assert!(v4.same(&IpAddress::V4([127, 0, 0, 1])));
    assert!(!v4.same(&IpAddress::V4([127, 0, 0, 2])));
    assert!(!v4.same(&v6));
    assert_eq!(IpAddress::v4_unspecified(), IpAddress::V4([0, 0, 0, 0]));
    assert_eq!(MacAddress::zero().octets, [0; 6]);
    let sa = SockAddr::new(v4, 80);
    assert_eq!(sa.port, 80);
}

#[test]
fn run_identifier_and_channels() {
    let id = fresh_run_id();
    assert_eq!(id.len(), 36);
    let id2 = fresh_run_id();
    assert_ne!(id, id2);
    assert_eq!(event_channel(ProbeOp::Ping, RunPhase::Start), "ping:start");
    assert_eq!(event_channel(ProbeOp::Ping, RunPhase::Progress), "ping:progress");
    assert_eq!(event_channel(ProbeOp::HostScan, RunPhase::Done), "hostscan:done");
    assert_eq!(event_channel(ProbeOp::PortScan, RunPhase::Progress), "portscan:progress");
    assert_eq!(event_channel(ProbeOp::Traceroute, RunPhase::Error), "traceroute:error");
    assert_eq!(event_channel(ProbeOp::NeighborScan, RunPhase::Start), "neighborscan:start");
}

#[test]
fn run_lifecycle() {
    let mut run = RunState::new();
    assert_eq!(run, RunState::Created);
    assert!(!run.is_terminal());
    run.start();
    assert_eq!(run, RunState::Running);
    run.complete();
    assert!(run.is_terminal());
    let mut failing = RunState::new();
    failing.start();
    failing.fail();
    assert_eq!(failing, RunState::Failed);
    let mut cancelled = RunState::new();
    cancelled.start();
    cancelled.cancel();
    assert_eq!(cancelled, RunState::Cancelled);
}

#[test]
fn log_level_order() {
    assert!(LogLevel::DEBUG.allows(&LogLevel::DEBUG));
    assert!(LogLevel::DEBUG.allows(&LogLevel::ERROR));
    assert!(!LogLevel::INFO.allows(&LogLevel::DEBUG));
    assert!(LogLevel::INFO.allows(&LogLevel::WARN));
    assert!(LogLevel::WARN.allows(&LogLevel::ERROR));
    assert!(!LogLevel::WARN.allows(&LogLevel::INFO));
    assert!(LogLevel::ERROR.allows(&LogLevel::ERROR));
    assert!(!LogLevel::ERROR.allows(&LogLevel::WARN));
    assert_eq!(LogLevel::WARN.to_string(), "WARN");
}

#[test]
fn config_defaults() {
    let cfg = AppConfig::new();
    assert!(!cfg.startup);
    assert_eq!(cfg.refresh_interval_ms, 1000);
    assert_eq!(cfg.theme, "system");
    assert_eq!(cfg.data_unit, "bits");
    assert_eq!(cfg.logging.level, LogLevel::INFO);
    let logging = LoggingConfig::new();
    assert_eq!(logging.level, LogLevel::INFO);
    assert!(logging.file_path.is_none());
}

#[test]
fn socket_configs() {
    let icmp = IcmpConfig::new(IcmpKind::V4).with_ttl(3).with_read_timeout(250);
    assert_eq!(icmp.socket_family, AddressFamily::IPv4);
    assert_eq!(icmp.ttl, Some(3));
    assert_eq!(icmp.read_timeout_ms, Some(250));
    assert_eq!(icmp.sock_type_hint, IcmpSocketType::Dgram);
    assert!(icmp.sock_type_hint.is_dgram());
    assert!(!icmp.sock_type_hint.is_raw());
    assert!(IcmpSocketType::Raw.is_raw());

    let udp = UdpConfig::new().with_hoplimit(7).with_reuseaddr(true);
    assert_eq!(udp.socket_type, UdpSocketType::Dgram);
    assert!(udp.socket_type.is_dgram());
    assert!(UdpSocketType::Raw.is_raw());
    assert_eq!(udp.hoplimit, Some(7));
    assert_eq!(udp.reuseaddr, Some(true));

    let tcp = TcpConfig::v6_stream();
    assert_eq!(tcp.socket_family, AddressFamily::IPv6);
    assert_eq!(tcp.nodelay, None);

    let quic = QuicConfig::probe_default(AddressFamily::IPv4);
    assert!(quic.skip_verify);
    let alpn: Vec<&[u8]> = quic.alpn.iter().map(|p| p.as_slice()).collect();
    assert_eq!(alpn, vec![b"h3".as_slice(), b"hq-29".as_slice(), b"hq-interop".as_slice()]);
}

#[test]
fn tcp_flag_states() {
    assert_eq!(SocketStatus::from_xenet_tcp_flags(2), SocketStatus::SynSent);
    assert_eq!(SocketStatus::from_xenet_tcp_flags(18), SocketStatus::SynReceived);
    assert_eq!(SocketStatus::from_xenet_tcp_flags(16), SocketStatus::Established);
    assert_eq!(SocketStatus::from_xenet_tcp_flags(17), SocketStatus::Closing);
    assert_eq!(SocketStatus::from_xenet_tcp_flags(1), SocketStatus::FinWait1);
    assert_eq!(SocketStatus::from_xenet_tcp_flags(4), SocketStatus::Unknown);
    assert_eq!(SocketStatus::Established.name(), "ESTABLISHED");
}

#[test]
fn socket_info_option_covers_everything_by_default() {
    let opt = SocketInfoOption::default();
    assert_eq!(opt.address_family.len(), 2);
    assert_eq!(opt.transport_protocol.len(), 2);
    let narrowed = SocketInfoOption::new(vec![AddressFamily::IPv4], vec![]);
    assert_eq!(narrowed.address_family.len(), 1);
}

#[test]
fn endpoint_ports_merge_without_duplicates() {
    let ip = IpAddress::V4([10, 0, 0, 5]);
    let mut ep = Endpoint::new(ip);
    ep.upsert_port(Port::new(80, TransportProtocol::Tcp));
    ep.upsert_port(Port::new(80, TransportProtocol::Tcp));
    ep.upsert_port(Port::new(443, TransportProtocol::Quic));
    assert_eq!(ep.ports.len(), 2);

    let mut other = Endpoint::with_hostname(ip, String::from("printer.local"));
    other.upsert_port(Port::new(80, TransportProtocol::Tcp));
    other.upsert_port(Port::new(631, TransportProtocol::Tcp));
    other.tags.push(String::from("Gateway"));
    other.mac_addr = Some(MacAddress::from_octets([1, 2, 3, 4, 5, 6]));

    ep.merge(other);
    assert_eq!(ep.hostname.as_deref(), Some("printer.local"));
    assert_eq!(ep.mac_addr.map(|m| m.octets), Some([1, 2, 3, 4, 5, 6]));
    assert_eq!(ep.ports.len(), 3);
    assert_eq!(ep.tags, vec![String::from("Gateway")]);

    let tcp_addrs = ep.socket_addrs(TransportProtocol::Tcp);
    let ports: Vec<u16> = tcp_addrs.iter().map(|a| a.port).collect();
    assert_eq!(ports, vec![80, 631]);

    let port = Port::from((8080, TransportProtocol::Udp));
    assert_eq!(port.number, 8080);
    assert_eq!(port.socket_addr(ip), SockAddr::new(ip, 8080));
    let host = Host::with_hostname(ip, String::from("h"));
    assert_eq!(host.hostname.as_deref(), Some("h"));
    assert_eq!(Host::default().ip, IpAddress::V4([0, 0, 0, 0]));
}

#[test]
fn public_address_family_detection() {
    let mk = |version: &str, addr: &str| IpInfo {
        ip_version: String::from(version),
        ip_addr_dec: String::new(),
        ip_addr: String::from(addr),
        host_name: String::new(),
        network: String::new(),
        asn: String::new(),
        as_name: String::new(),
        country_code: String::new(),
        country_name: String::new(),
    };
    assert!(is_ipv6(&mk("v6", "2001:db8::1")));
    assert!(is_ipv6(&mk("v4", "2001:db8::1"))); // the colon decides too
    assert!(!is_ipv6(&mk("v4", "192.0.2.1")));
}

#[test]
fn protocol_names_parse_any_case() {
    assert_eq!(parse_protocol("icmp"), Some(PingProtocol::Icmp));
    assert_eq!(parse_protocol("ICMP"), Some(PingProtocol::Icmp));
    assert_eq!(parse_protocol("Tcp"), Some(PingProtocol::Tcp));
    assert_eq!(parse_protocol("udp"), Some(PingProtocol::Udp));
    assert_eq!(parse_protocol("QUIC"), Some(PingProtocol::Quic));
    assert_eq!(parse_protocol("http"), Some(PingProtocol::Http));
    assert_eq!(parse_protocol("spx"), None);
    assert_eq!(parse_protocol(""), None);
}

#[test]
fn port_text_form() {
    assert_eq!(Port::new(80, TransportProtocol::Tcp).to_text(), "tcp:80");
    assert_eq!(Port::new(443, TransportProtocol::Quic).to_text(), "quic:443");
}

#[test]
fn http_request_targets() {
    assert_eq!(http_port("example.com", Some(8080)), 8080);
    assert_eq!(http_port("https://example.com", None), 443);
    assert_eq!(http_port("example.com", None), 80);
    assert_eq!(http_url("example.com", 80), "http://example.com:80/");
    assert_eq!(http_url("example.com", 443), "https://example.com:443/");
    // A host that already names a scheme is used as-is.
    assert_eq!(http_url("https://example.com", 443), "https://example.com");
    assert_eq!(http_url("http://example.com:8080", 8080), "http://example.com:8080");
}
