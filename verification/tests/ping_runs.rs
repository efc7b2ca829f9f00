use netpulsar::error::IoErrorKind;
use netpulsar::ip::IpAddress;
use netpulsar::ping::{
    effective_port, outcome_for_connect_error, outcome_for_echo_reply, summarize_rtts, PingProtocol,
    PingRunner, PingSample, PingSetting, PingStat, ProbeOutcome,
};
use netpulsar::probe::{ProbeStatus, ProbeStatusKind};
use netpulsar::text::{timeout_message, u64_to_string};

fn setting(protocol: PingProtocol, count: u32, timeout_ms: u64) -> PingSetting {
    PingSetting {
        ip_addr: IpAddress::V4([127, 0, 0, 1]),
        hostname: None,
        port: None,
        hop_limit: 64,
        protocol,
        count,
        timeout_ms,
        send_rate_ms: 0,
    }
}

#[test]
fn summarize_empty_is_all_none() {
    assert_eq!(summarize_rtts(&vec![]), (None, None, None));
}

#[test]
fn summarize_exact_values() {
    assert_eq!(summarize_rtts(&vec![5]), (Some(5), Some(5), Some(5)));
    assert_eq!(summarize_rtts(&vec![3, 9, 6]), (Some(3), Some(6), Some(9)));
    // The rounded mean need not be an observed sample: (1 + 4) / 2 == 2.
    assert_eq!(summarize_rtts(&vec![1, 4]), (Some(1), Some(2), Some(4)));
}

#[test]
fn stat_counts_done_samples_only() {
    let ip = IpAddress::V4([127, 0, 0, 1]);
    let samples = vec![
        PingSample {
            seq: 1,
            ip_addr: ip,
            hostname: None,
            port: None,
            rtt_ms: Some(10),
            probe_status: ProbeStatus::new(),
            protocol: PingProtocol::Icmp,
        },
        PingSample {
            seq: 2,
            ip_addr: ip,
            hostname: None,
            port: None,
            rtt_ms: None,
            probe_status: ProbeStatus::with_timeout_message(String::from("timeout (>1000ms)")),
            protocol: PingProtocol::Icmp,
        },
        PingSample {
            seq: 3,
            ip_addr: ip,
            hostname: None,
            port: None,
            rtt_ms: Some(20),
            probe_status: ProbeStatus::new(),
            protocol: PingProtocol::Icmp,
        },
    ];
    let stat = PingStat::from_samples(None, ip, None, PingProtocol::Icmp, samples);
    assert_eq!(stat.transmitted_count, 3);
    assert_eq!(stat.received_count, 2);
    assert_eq!(stat.min, Some(10));
    assert_eq!(stat.avg, Some(15));
    assert_eq!(stat.max, Some(20));
}

#[test]
fn runner_rejects_zero_count_and_zero_timeout() {
    assert!(PingRunner::new(String::from("r"), setting(PingProtocol::Icmp, 0, 1000)).is_err());
    assert!(PingRunner::new(String::from("r"), setting(PingProtocol::Icmp, 1, 0)).is_err());
    // A one-millisecond deadline is allowed.
    assert!(PingRunner::new(String::from("r"), setting(PingProtocol::Icmp, 1, 1)).is_ok());
}

#[test]
fn icmp_run_all_replies() {
    // Four probes against the loopback address, all answered within the
    // deadline: transmitted 4, received 4, bounds hold.
    let mut runner =
        PingRunner::new(String::from("run"), setting(PingProtocol::Icmp, 4, 1000)).unwrap();
    let rtts = [0u64, 1, 2, 1];
    let mut k = 0;
    while !runner.is_finished() {
        let progress = runner.record(ProbeOutcome::Reply { rtt_ms: rtts[k] });
        k += 1;
        assert_eq!(progress.transmitted, k as u32);
        assert_eq!(progress.received, k as u32);
        assert_eq!(progress.percent, (k as u32) * 100 / 4);
    }
    let stat = runner.finish();
    assert_eq!(stat.transmitted_count, 4);
    assert_eq!(stat.received_count, 4);
    assert!(stat.min.unwrap() <= stat.avg.unwrap());
    assert!(stat.avg.unwrap() <= stat.max.unwrap());
    assert!(stat.max.unwrap() < 1000);
}

#[test]
fn tcp_run_refused_port() {
    // One probe at a closed port: the connect is refused, the sample is
    // an error, nothing is received.
    let mut s = setting(PingProtocol::Tcp, 1, 500);
    s.port = Some(1);
    let mut runner = PingRunner::new(String::from("run"), s).unwrap();
    let outcome = outcome_for_connect_error(
        IoErrorKind::ConnectionRefused,
        String::from("connect error: Connection refused (os error 111)"),
    );
    let progress = runner.record(outcome);
    assert_eq!(progress.sample.probe_status.kind, ProbeStatusKind::Error);
    assert!(progress.sample.probe_status.message.contains("refused"));
    assert_eq!(progress.received, 0);
    assert!(!runner.more_probes_pending());
    let stat = runner.finish();
    assert_eq!(stat.received_count, 0);
    assert_eq!(stat.min, None);
    assert_eq!(stat.avg, None);
    assert_eq!(stat.max, None);
    assert_eq!(stat.port, Some(1));
}

#[test]
fn single_probe_run_never_pauses() {
    // With count 1 exactly one sample is recorded and no inter-probe
    // pause is ever due.
    let mut runner =
        PingRunner::new(String::from("run"), setting(PingProtocol::Icmp, 1, 1000)).unwrap();
    assert!(runner.more_probes_pending());
    let _ = runner.record(ProbeOutcome::Reply { rtt_ms: 3 });
    assert!(!runner.more_probes_pending());
    assert!(runner.is_finished());
    let stat = runner.finish();
    assert_eq!(stat.samples.len(), 1);
}

#[test]
fn timeout_sample_carries_deadline_message() {
    let mut runner =
        PingRunner::new(String::from("run"), setting(PingProtocol::Icmp, 1, 500)).unwrap();
    let progress = runner.record(ProbeOutcome::TimedOut);
    assert_eq!(progress.sample.probe_status.kind, ProbeStatusKind::Timeout);
    assert_eq!(progress.sample.probe_status.message, "timeout (>500ms)");
    assert_eq!(progress.sample.rtt_ms, None);
}

#[test]
fn unexpected_reply_is_an_error_sample() {
    let ok = outcome_for_echo_reply(true, 12);
    assert!(matches!(ok, ProbeOutcome::Reply { rtt_ms: 12 }));
    let bad = outcome_for_echo_reply(false, 12);
    match bad {
        ProbeOutcome::Failed { message } => assert_eq!(message, "unexpected reply"),
        _ => panic!("expected a failed outcome"),
    }
}

#[test]
fn timed_out_connect_maps_to_timeout_outcome() {
    let o = outcome_for_connect_error(IoErrorKind::TimedOut, String::from("ignored"));
    assert!(matches!(o, ProbeOutcome::TimedOut));
}

#[test]
fn effective_ports_per_protocol() {
    assert_eq!(effective_port(PingProtocol::Icmp, Some(80)), None);
    assert_eq!(effective_port(PingProtocol::Tcp, None), Some(80));
    assert_eq!(effective_port(PingProtocol::Tcp, Some(8080)), Some(8080));
    assert_eq!(effective_port(PingProtocol::Udp, Some(53)), Some(33435));
    assert_eq!(effective_port(PingProtocol::Quic, None), Some(443));
    assert_eq!(effective_port(PingProtocol::Http, None), Some(443));
}

#[test]
fn decimal_rendering() {
    assert_eq!(u64_to_string(0), "0");
    assert_eq!(u64_to_string(7), "7");
    assert_eq!(u64_to_string(1000), "1000");
    assert_eq!(u64_to_string(18446744073709551615), "18446744073709551615");
    assert_eq!(timeout_message(1000), "timeout (>1000ms)");
}

#[test]
fn protocol_names() {
    assert_eq!(PingProtocol::Icmp.name(), "ICMP");
    assert_eq!(PingProtocol::Http.name(), "HTTP");
}
