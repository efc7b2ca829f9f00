//! Ping run model: settings, samples, statistics and the per-run state
//! machine every protocol engine drives.
//!
//! The engine around the library performs one probe per sequence number
//! and reports each outcome; the state machine classifies it into a
//! sample, keeps the running counters, and summarizes at the end.

use vstd::prelude::*;

use crate::ip::IpAddress;
use crate::error::{IoErrorKind, ProbeError};
use crate::probe::{ProbeStatus, ProbeStatusKind};
use crate::text::{clone_opt_string, timeout_message};
use vstd::string::StringSliceAdditionalSpecFns;

verus! {

/// Protocol a ping run probes with.
#[derive(Clone, Copy, Debug, PartialEq, Eq, Structural)]
pub enum PingProtocol {
    Icmp,
    Tcp,
    Udp,
    Quic,
    Http,
}

impl PingProtocol {
    /// Name of the protocol, for display.
    pub fn name(&self) -> (r: String)
        ensures
            r@ == self.name_spec(),
    {
        match *self {
            PingProtocol::Icmp => String::from_str("ICMP"),
            PingProtocol::Tcp => String::from_str("TCP"),
            PingProtocol::Udp => String::from_str("UDP"),
            PingProtocol::Quic => String::from_str("QUIC"),
            PingProtocol::Http => String::from_str("HTTP"),
        }
    }

    /// The character sequence `name` returns.
    pub open spec fn name_spec(self) -> Seq<char> {
        match self {
            PingProtocol::Icmp => "ICMP"@,
            PingProtocol::Tcp => "TCP"@,
            PingProtocol::Udp => "UDP"@,
            PingProtocol::Quic => "QUIC"@,
            PingProtocol::Http => "HTTP"@,
        }
    }
}


/// A byte folded to ASCII lower case.
pub open spec fn ascii_lower(b: u8) -> u8 {
    if 65 <= b <= 90 {
        (b + 32) as u8
    } else {
        b
    }
}

/// The protocol a name spells, compared byte for byte after ASCII case
/// folding.
pub open spec fn protocol_of_name(bytes: Seq<u8>) -> Option<PingProtocol> {
    let folded = bytes.map_values(|b: u8| ascii_lower(b));
    if folded == seq![105u8, 99u8, 109u8, 112u8] {
        Some(PingProtocol::Icmp)
    } else if folded == seq![116u8, 99u8, 112u8] {
        Some(PingProtocol::Tcp)
    } else if folded == seq![117u8, 100u8, 112u8] {
        Some(PingProtocol::Udp)
    } else if folded == seq![113u8, 117u8, 105u8, 99u8] {
        Some(PingProtocol::Quic)
    } else if folded == seq![104u8, 116u8, 116u8, 112u8] {
        Some(PingProtocol::Http)
    } else {
        None
    }
}

/// Compare a byte string against an expected lower-case word, folding
/// ASCII case.
fn folded_eq(bytes: &[u8], expected: &[u8]) -> (r: bool)
    ensures
        r == (bytes@.map_values(|b: u8| ascii_lower(b)) == expected@),
{
    let n = bytes.len();
    if n != expected.len() {
        proof {
            assert(bytes@.map_values(|b: u8| ascii_lower(b)).len() == bytes@.len());
        }
        return false;
    }
    let mut i: usize = 0;
    while i < n
        invariant
            i <= n,
            n == bytes@.len() == expected@.len(),
            forall|j: int|
                0 <= j < i ==> ascii_lower(#[trigger] bytes@[j]) == expected@[j],
        decreases n - i,
    {
        let b = bytes[i];
        let folded = if 65 <= b && b <= 90 {
            b + 32
        } else {
            b
        };
        if folded != expected[i] {
            proof {
                assert(bytes@.map_values(|b: u8| ascii_lower(b))[i as int] == ascii_lower(
                    bytes@[i as int],
                ));
            }
            return false;
        }
        i = i + 1;
    }
    proof {
        assert(bytes@.map_values(|b: u8| ascii_lower(b)) =~= expected@);
    }
    true
}

/// Parse a protocol name, any case: `icmp`, `tcp`, `udp`, `quic`, `http`.
pub fn parse_protocol(name: &str) -> (r: Option<PingProtocol>)
    ensures
        r == protocol_of_name(name.spec_bytes()),
{
    broadcast use vstd::array::group_array_axioms;

    let bytes = name.as_bytes();
    let icmp: [u8; 4] = [105, 99, 109, 112];
    let tcp: [u8; 3] = [116, 99, 112];
    let udp: [u8; 3] = [117, 100, 112];
    let quic: [u8; 4] = [113, 117, 105, 99];
    let http: [u8; 4] = [104, 116, 116, 112];
    proof {
        assert(icmp@ =~= seq![105u8, 99u8, 109u8, 112u8]);
        assert(tcp@ =~= seq![116u8, 99u8, 112u8]);
        assert(udp@ =~= seq![117u8, 100u8, 112u8]);
        assert(quic@ =~= seq![113u8, 117u8, 105u8, 99u8]);
        assert(http@ =~= seq![104u8, 116u8, 116u8, 112u8]);
    }
    if folded_eq(bytes, &icmp) {
        Some(PingProtocol::Icmp)
    } else if folded_eq(bytes, &tcp) {
        Some(PingProtocol::Tcp)
    } else if folded_eq(bytes, &udp) {
        Some(PingProtocol::Udp)
    } else if folded_eq(bytes, &quic) {
        Some(PingProtocol::Quic)
    } else if folded_eq(bytes, &http) {
        Some(PingProtocol::Http)
    } else {
        None
    }
}

/// Settings for a ping run.
#[derive(Clone, Debug)]
pub struct PingSetting {
    /// Resolved target address.
    pub ip_addr: IpAddress,
    /// Display hostname.
    pub hostname: Option<String>,
    /// Target port, where the protocol has one.
    pub port: Option<u16>,
    /// TTL (IPv4) or hop limit (IPv6) of outgoing probes.
    pub hop_limit: u8,
    /// Protocol to probe with.
    pub protocol: PingProtocol,
    /// Number of probes to send.
    pub count: u32,
    /// Deadline of each probe, in milliseconds.
    pub timeout_ms: u64,
    /// Pause between consecutive probes, in milliseconds.
    pub send_rate_ms: u64,
}

/// Result of a single probe.
#[derive(Debug)]
pub struct PingSample {
    /// Sequence number, starting at 1.
    pub seq: u32,
    /// Target address.
    pub ip_addr: IpAddress,
    /// Display hostname.
    pub hostname: Option<String>,
    /// Target port, where the protocol has one.
    pub port: Option<u16>,
    /// Round-trip time in milliseconds; present exactly when the probe
    /// succeeded.
    pub rtt_ms: Option<u64>,
    /// Outcome classification.
    pub probe_status: ProbeStatus,
    /// Protocol probed with.
    pub protocol: PingProtocol,
}

impl Clone for PingSample {
    /// Cloning keeps the sample.
    fn clone(&self) -> (r: Self)
        ensures
            r == *self,
    {
        PingSample {
            seq: self.seq,
            ip_addr: self.ip_addr,
            hostname: clone_opt_string(&self.hostname),
            port: self.port,
            rtt_ms: self.rtt_ms,
            probe_status: self.probe_status.clone(),
            protocol: self.protocol,
        }
    }
}

impl PingSample {
    /// A sample is well formed when it carries a round-trip time exactly
    /// on success.
    pub open spec fn wf(self) -> bool {
        self.rtt_ms is Some <==> self.probe_status.kind == ProbeStatusKind::Done
    }
}

/// Number of samples in `s` whose status is `Done`.
pub open spec fn done_count(s: Seq<PingSample>) -> int
    decreases s.len(),
{
    if s.len() == 0 {
        0
    } else {
        done_count(s.drop_last()) + (if s.last().probe_status.kind == ProbeStatusKind::Done {
            1int
        } else {
            0int
        })
    }
}

/// Round-trip times of the `Done` samples of `s`, in order.
pub open spec fn done_rtts(s: Seq<PingSample>) -> Seq<u64>
    decreases s.len(),
{
    if s.len() == 0 {
        Seq::empty()
    } else {
        done_rtts(s.drop_last()) + (if s.last().probe_status.kind == ProbeStatusKind::Done {
            match s.last().rtt_ms {
                Some(rtt) => seq![rtt],
                None => Seq::empty(),
            }
        } else {
            Seq::empty()
        })
    }
}

/// The count of `Done` samples never exceeds the sample count.
pub proof fn lemma_done_count_bounds(s: Seq<PingSample>)
    ensures
        0 <= done_count(s) <= s.len(),
    decreases s.len(),
{
    if s.len() > 0 {
        lemma_done_count_bounds(s.drop_last());
    }
}

/// Every round-trip time among `done_rtts(s)` belongs to a `Done` sample
/// of `s`.
pub proof fn lemma_done_rtts_from_samples(s: Seq<PingSample>, rtt: u64)
    requires
        done_rtts(s).contains(rtt),
    ensures
        exists|i: int|
            0 <= i < s.len() && s[i].probe_status.kind == ProbeStatusKind::Done && s[i].rtt_ms
                == Some(rtt),
    decreases s.len(),
{
    if s.len() > 0 {
        let last = s.last();
        if done_rtts(s.drop_last()).contains(rtt) {
            lemma_done_rtts_from_samples(s.drop_last(), rtt);
            let i = choose|i: int|
                0 <= i < s.drop_last().len() && s.drop_last()[i].probe_status.kind
                    == ProbeStatusKind::Done && s.drop_last()[i].rtt_ms == Some(rtt);
            assert(s[i].probe_status.kind == ProbeStatusKind::Done && s[i].rtt_ms == Some(rtt));
        } else {
            // The witness is the last sample.
            let tail = if last.probe_status.kind == ProbeStatusKind::Done {
                match last.rtt_ms {
                    Some(r) => seq![r],
                    None => Seq::<u64>::empty(),
                }
            } else {
                Seq::<u64>::empty()
            };
            assert(done_rtts(s) == done_rtts(s.drop_last()) + tail);
            let j = choose|j: int| 0 <= j < done_rtts(s).len() && done_rtts(s)[j] == rtt;
            if j < done_rtts(s.drop_last()).len() {
                assert(done_rtts(s.drop_last())[j] == rtt);
                assert(false);
            }
            assert(tail.len() == 1 && tail[0] == rtt);
            assert(s[s.len() - 1].probe_status.kind == ProbeStatusKind::Done);
            assert(s[s.len() - 1].rtt_ms == Some(rtt));
        }
    }
}

/// Smallest element of a non-empty sequence.
pub open spec fn seq_min(s: Seq<u64>) -> u64
    recommends
        s.len() > 0,
    decreases s.len(),
{
    if s.len() <= 1 {
        s[0]
    } else {
        let m = seq_min(s.drop_last());
        if s.last() < m {
            s.last()
        } else {
            m
        }
    }
}

/// Largest element of a non-empty sequence.
pub open spec fn seq_max(s: Seq<u64>) -> u64
    recommends
        s.len() > 0,
    decreases s.len(),
{
    if s.len() <= 1 {
        s[0]
    } else {
        let m = seq_max(s.drop_last());
        if s.last() > m {
            s.last()
        } else {
            m
        }
    }
}

/// Sum of a sequence.
pub open spec fn seq_sum(s: Seq<u64>) -> int
    decreases s.len(),
{
    if s.len() == 0 {
        0
    } else {
        seq_sum(s.drop_last()) + s.last()
    }
}

/// The mean of a non-empty sequence, rounded down.
pub open spec fn avg_of(s: Seq<u64>) -> int {
    seq_sum(s) / s.len() as int
}

/// The smallest and largest elements are elements, every element lies
/// between them, and so does the rounded mean.
pub proof fn lemma_rtt_summary_bounds(s: Seq<u64>)
    requires
        s.len() > 0,
    ensures
        s.contains(seq_min(s)),
        s.contains(seq_max(s)),
        seq_min(s) <= seq_max(s),
        seq_min(s) <= avg_of(s) <= seq_max(s),
        forall|i: int| 0 <= i < s.len() ==> seq_min(s) <= #[trigger] s[i] <= seq_max(s),
{
    lemma_min_max_elem(s);
    lemma_sum_bounds(s);
    let n = s.len() as int;
    let mn = seq_min(s) as int;
    let mx = seq_max(s) as int;
    vstd::arithmetic::div_mod::lemma_div_is_ordered(n * mn, seq_sum(s), n);
    vstd::arithmetic::div_mod::lemma_div_is_ordered(seq_sum(s), n * mx, n);
    vstd::arithmetic::div_mod::lemma_div_multiples_vanish(mn, n);
    vstd::arithmetic::div_mod::lemma_div_multiples_vanish(mx, n);
}

proof fn lemma_min_max_elem(s: Seq<u64>)
    requires
        s.len() > 0,
    ensures
        s.contains(seq_min(s)),
        s.contains(seq_max(s)),
        forall|i: int| 0 <= i < s.len() ==> seq_min(s) <= #[trigger] s[i] <= seq_max(s),
    decreases s.len(),
{
    if s.len() == 1 {
        assert(s.contains(s[0])) by {
            assert(s[0] == s[0]);
        }
    } else {
        lemma_min_max_elem(s.drop_last());
        let d = s.drop_last();
        if d.contains(seq_min(s)) {
            let i = choose|i: int| 0 <= i < d.len() && d[i] == seq_min(s);
            assert(s[i] == seq_min(s));
        } else {
            assert(s[s.len() - 1] == seq_min(s));
        }
        if d.contains(seq_max(s)) {
            let i = choose|i: int| 0 <= i < d.len() && d[i] == seq_max(s);
            assert(s[i] == seq_max(s));
        } else {
            assert(s[s.len() - 1] == seq_max(s));
        }
        assert(forall|i: int| 0 <= i < d.len() ==> s[i] == d[i]);
    }
}

proof fn lemma_sum_bounds(s: Seq<u64>)
    requires
        s.len() > 0,
    ensures
        s.len() * seq_min(s) <= seq_sum(s) <= s.len() * seq_max(s),
    decreases s.len(),
{
    let n = s.len() as int;
    let mn = seq_min(s) as int;
    let mx = seq_max(s) as int;
    if s.len() == 1 {
        assert(n * mn == mn && n * mx == mx) by (nonlinear_arith)
            requires
                n == 1,
        ;
        assert(s.drop_last().len() == 0);
        assert(seq_sum(s.drop_last()) == 0);
        assert(seq_sum(s) == s[0]);
        assert(mn == s[0] && mx == s[0]);
    } else {
        let d = s.drop_last();
        lemma_sum_bounds(d);
        lemma_min_max_elem(d);
        lemma_min_max_elem(s);
        let dmn = seq_min(d) as int;
        let dmx = seq_max(d) as int;
        // The whole sequence's extremes bound the prefix's extremes.
        assert(mn <= dmn && dmx <= mx);
        assert(mn <= s.last() <= mx);
        assert(d.len() == n - 1);
        assert((n - 1) * dmn <= seq_sum(d) <= (n - 1) * dmx);
        assert((n - 1) * dmn >= (n - 1) * mn && (n - 1) * dmx <= (n - 1) * mx) by (nonlinear_arith)
            requires
                n >= 2,
                dmn >= mn,
                dmx <= mx,
        ;
        assert((n - 1) * mn + mn == n * mn && (n - 1) * mx + mx == n * mx) by (nonlinear_arith);
        assert(seq_sum(s) == seq_sum(d) + s.last());
        assert(seq_sum(s) >= (n - 1) * mn + mn);
        assert(seq_sum(s) <= (n - 1) * mx + mx);
    }
}

/// Summarize round-trip times: smallest, rounded mean, largest. All three
/// are `None` exactly when no round trip succeeded.
pub fn summarize_rtts(rtts_ms: &Vec<u64>) -> (r: (Option<u64>, Option<u64>, Option<u64>))
    ensures
        rtts_ms@.len() == 0 ==> r == (None::<u64>, None::<u64>, None::<u64>),
        rtts_ms@.len() > 0 ==> {
            &&& r.0 == Some(seq_min(rtts_ms@))
            &&& r.1 == Some(avg_of(rtts_ms@) as u64)
            &&& r.2 == Some(seq_max(rtts_ms@))
        },
{
    let n = rtts_ms.len();
    if n == 0 {
        return (None, None, None);
    }
    let mut min: u64 = rtts_ms[0];
    let mut max: u64 = rtts_ms[0];
    let mut sum: u128 = rtts_ms[0] as u128;
    let mut i: usize = 1;
    proof {
        let first = rtts_ms@.take(1);
        assert(first.drop_last() =~= Seq::<u64>::empty());
        assert(first.len() == 1 && first.last() == rtts_ms@[0]);
        assert(seq_min(first) == first[0] && seq_max(first) == first[0]);
        assert(seq_sum(first) == seq_sum(first.drop_last()) + first.last());
    }
    while i < n
        invariant
            1 <= i <= n,
            n == rtts_ms@.len(),
            min == seq_min(rtts_ms@.take(i as int)),
            max == seq_max(rtts_ms@.take(i as int)),
            sum == seq_sum(rtts_ms@.take(i as int)),
            sum <= i * 0xffff_ffff_ffff_ffff,
        decreases n - i,
    {
        proof {
            assert(rtts_ms@.take(i + 1).drop_last() =~= rtts_ms@.take(i as int));
            lemma_sum_le(rtts_ms@.take(i + 1));
        }
        let v = rtts_ms[i];
        if v < min {
            min = v;
        }
        if v > max {
            max = v;
        }
        sum = sum + v as u128;
        i = i + 1;
    }
    proof {
        assert(rtts_ms@.take(n as int) =~= rtts_ms@);
        lemma_rtt_summary_bounds(rtts_ms@);
    }
    let avg: u64 = (sum / (n as u128)) as u64;
    (Some(min), Some(avg), Some(max))
}

/// A sum of 64-bit values is bounded by the count times the largest
/// 64-bit value.
proof fn lemma_sum_le(s: Seq<u64>)
    ensures
        0 <= seq_sum(s) <= s.len() * 0xffff_ffff_ffff_ffff,
    decreases s.len(),
{
    if s.len() > 0 {
        lemma_sum_le(s.drop_last());
        let n = s.len() as int;
        assert((n - 1) * 0xffff_ffff_ffff_ffff + 0xffff_ffff_ffff_ffff == n
            * 0xffff_ffff_ffff_ffff) by (nonlinear_arith);
    }
}


/// Outcome of a single probe attempt, as the engine around the library
/// observed it.
#[derive(Clone, Debug)]
pub enum ProbeOutcome {
    /// A matching reply arrived within the deadline.
    Reply { rtt_ms: u64 },
    /// The attempt failed; the message says how.
    Failed { message: String },
    /// The deadline passed without a matching reply.
    TimedOut,
}

/// Classify what came back on the ICMP socket: a buffer that parses as an
/// Echo Reply completes the probe; anything else is an unexpected reply.
pub fn outcome_for_echo_reply(parsed: bool, rtt_ms: u64) -> (r: ProbeOutcome)
    ensures
        parsed ==> r == (ProbeOutcome::Reply { rtt_ms }),
        !parsed ==> (r matches ProbeOutcome::Failed { message } && message@ == "unexpected reply"@),
{
    if parsed {
        ProbeOutcome::Reply { rtt_ms }
    } else {
        ProbeOutcome::Failed { message: String::from_str("unexpected reply") }
    }
}

/// Classify a failed connect: a timed-out handshake is a timeout sample,
/// every other kind is an error sample carrying the kernel's message.
pub fn outcome_for_connect_error(kind: IoErrorKind, message: String) -> (r: ProbeOutcome)
    ensures
        kind == IoErrorKind::TimedOut ==> r == ProbeOutcome::TimedOut,
        kind != IoErrorKind::TimedOut ==> r == (ProbeOutcome::Failed { message }),
{
    if matches!(kind, IoErrorKind::TimedOut) {
        ProbeOutcome::TimedOut
    } else {
        ProbeOutcome::Failed { message }
    }
}

/// Fixed destination port of UDP probes, the traditional traceroute base
/// port.
pub const DEFAULT_BASE_TARGET_UDP_PORT: u16 = 33435;

/// The port samples of a run carry: ICMP has none; TCP defaults to 80,
/// QUIC and HTTP to 443; UDP probes always aim at the fixed base port.
pub open spec fn effective_port_spec(protocol: PingProtocol, port: Option<u16>) -> Option<u16> {
    match protocol {
        PingProtocol::Icmp => None,
        PingProtocol::Tcp => if port is Some {
            port
        } else {
            Some(80u16)
        },
        PingProtocol::Udp => Some(DEFAULT_BASE_TARGET_UDP_PORT),
        PingProtocol::Quic => if port is Some {
            port
        } else {
            Some(443u16)
        },
        PingProtocol::Http => if port is Some {
            port
        } else {
            Some(443u16)
        },
    }
}

/// Compute the port the samples of a run carry.
pub fn effective_port(protocol: PingProtocol, port: Option<u16>) -> (r: Option<u16>)
    ensures
        r == effective_port_spec(protocol, port),
{
    match protocol {
        PingProtocol::Icmp => None,
        PingProtocol::Tcp => match port {
            Some(p) => Some(p),
            None => Some(80u16),
        },
        PingProtocol::Udp => Some(DEFAULT_BASE_TARGET_UDP_PORT),
        PingProtocol::Quic => match port {
            Some(p) => Some(p),
            None => Some(443u16),
        },
        PingProtocol::Http => match port {
            Some(p) => Some(p),
            None => Some(443u16),
        },
    }
}

/// Progress record emitted after each sample.
#[derive(Clone, Debug)]
pub struct PingProgressPayload {
    /// Run this sample belongs to.
    pub run_id: String,
    /// The sample just recorded.
    pub sample: PingSample,
    /// Probes sent so far; equals the sample's sequence number.
    pub transmitted: u32,
    /// Probes answered so far.
    pub received: u32,
    /// Hundredths of completion: `transmitted * 100 / count`.
    pub percent: u32,
}

/// Payload of the event that starts a run.
#[derive(Clone, Debug)]
pub struct PingStartPayload {
    pub run_id: String,
    pub setting: PingSetting,
}

/// Payload of the event that ends a run.
#[derive(Clone, Debug)]
pub struct PingDonePayload {
    pub run_id: String,
    pub stat: PingStat,
}

/// Payload of the event a failed run emits.
#[derive(Clone, Debug)]
pub struct PingErrorPayload {
    pub run_id: String,
    pub message: String,
}

/// State machine of one ping run. The engine performs one probe per
/// sequence number, reports each outcome through `record`, sleeps between
/// probes while `more_probes_pending`, and summarizes with `finish`.
pub struct PingRunner {
    /// Run identifier carried in every event payload.
    pub run_id: String,
    /// The validated setting.
    pub setting: PingSetting,
    /// Port the samples carry.
    pub sample_port: Option<u16>,
    /// Samples recorded so far, in sequence order.
    pub samples: Vec<PingSample>,
    /// Count of `Done` samples so far.
    pub received: u32,
}

impl PingRunner {
    /// Invariant of a run in progress.
    pub open spec fn wf(self) -> bool {
        &&& self.setting.count >= 1
        &&& self.setting.timeout_ms >= 1
        &&& self.samples@.len() <= self.setting.count
        &&& self.received == done_count(self.samples@)
        &&& self.sample_port == effective_port_spec(self.setting.protocol, self.setting.port)
        &&& forall|i: int|
            0 <= i < self.samples@.len() ==> {
                &&& (#[trigger] self.samples@[i]).wf()
                &&& self.samples@[i].seq == i + 1
                &&& self.samples@[i].ip_addr == self.setting.ip_addr
                &&& self.samples@[i].protocol == self.setting.protocol
                &&& self.samples@[i].port == self.sample_port
            }
    }

    /// Validate a setting and open a run. A run needs at least one probe
    /// and a deadline of at least a millisecond.
    pub fn new(run_id: String, setting: PingSetting) -> (r: Result<PingRunner, ProbeError>)
        ensures
            r is Ok <==> setting.count >= 1 && setting.timeout_ms >= 1,
            match r {
                Ok(runner) => {
                    &&& runner.wf()
                    &&& runner.samples@.len() == 0
                    &&& runner.setting == setting
                    &&& runner.run_id == run_id
                },
                Err(e) => e is InvalidArgument,
            },
    {
        if setting.count < 1 {
            return Err(ProbeError::InvalidArgument(String::from_str("count must be at least 1")));
        }
        if setting.timeout_ms < 1 {
            return Err(
                ProbeError::InvalidArgument(String::from_str("timeout must be at least 1 ms")),
            );
        }
        let sample_port = effective_port(setting.protocol, setting.port);
        Ok(PingRunner { run_id, setting, sample_port, samples: Vec::new(), received: 0 })
    }

    /// Sequence number of the next probe; numbering starts at 1.
    pub fn next_seq(&self) -> (r: u32)
        requires
            self.wf(),
            self.samples@.len() < self.setting.count,
        ensures
            r == self.samples@.len() + 1,
    {
        (self.samples.len() as u32) + 1
    }

    /// True when every probe has been recorded.
    pub fn is_finished(&self) -> (r: bool)
        requires
            self.wf(),
        ensures
            r == (self.samples@.len() == self.setting.count),
    {
        self.samples.len() == self.setting.count as usize
    }

    /// True while probes remain, hence while the engine pauses between
    /// them: with `count == 1` a single sample is recorded and no pause
    /// ever happens.
    pub fn more_probes_pending(&self) -> (r: bool)
        requires
            self.wf(),
        ensures
            r == (self.samples@.len() < self.setting.count),
    {
        self.samples.len() < self.setting.count as usize
    }

    /// Record the outcome of the probe with the next sequence number and
    /// return the progress event to emit: `transmitted` equals the new
    /// sample's sequence number, `received` counts the `Done` samples,
    /// and `percent` is `transmitted * 100 / count`.
    pub fn record(&mut self, outcome: ProbeOutcome) -> (r: PingProgressPayload)
        requires
            old(self).wf(),
            old(self).samples@.len() < old(self).setting.count,
        ensures
            final(self).wf(),
            final(self).run_id == old(self).run_id,
            final(self).setting == old(self).setting,
            final(self).samples@.len() == old(self).samples@.len() + 1,
            final(self).samples@ == old(self).samples@.push(r.sample),
            r.sample.seq == old(self).samples@.len() + 1,
            r.sample.ip_addr == old(self).setting.ip_addr,
            r.sample.protocol == old(self).setting.protocol,
            r.sample.port == old(self).sample_port,
            match outcome {
                ProbeOutcome::Reply { rtt_ms } => r.sample.rtt_ms == Some(rtt_ms)
                    && r.sample.probe_status.kind == ProbeStatusKind::Done,
                ProbeOutcome::Failed { message } => r.sample.rtt_ms is None
                    && r.sample.probe_status.kind == ProbeStatusKind::Error
                    && r.sample.probe_status.message == message,
                ProbeOutcome::TimedOut => r.sample.rtt_ms is None && r.sample.probe_status.kind
                    == ProbeStatusKind::Timeout && r.sample.probe_status.message@
                    == crate::text::timeout_message_spec(old(self).setting.timeout_ms as int),
            },
            r.run_id == old(self).run_id,
            r.transmitted == final(self).samples@.len(),
            r.received == done_count(final(self).samples@),
            r.percent == (final(self).samples@.len() * 100) as int / old(self).setting.count as int,
    {
        let seq = (self.samples.len() as u32) + 1;
        let (status, rtt_ms): (ProbeStatus, Option<u64>) = match outcome {
            ProbeOutcome::Reply { rtt_ms } => (ProbeStatus::new(), Some(rtt_ms)),
            ProbeOutcome::Failed { message } => (ProbeStatus::with_error_message(message), None),
            ProbeOutcome::TimedOut => (
                ProbeStatus::with_timeout_message(timeout_message(self.setting.timeout_ms)),
                None,
            ),
        };
        let sample = PingSample {
            seq,
            ip_addr: self.setting.ip_addr,
            hostname: clone_opt_string(&self.setting.hostname),
            port: self.sample_port,
            rtt_ms,
            probe_status: status,
            protocol: self.setting.protocol,
        };
        proof {
            lemma_done_count_bounds(self.samples@);
        }
        if sample.rtt_ms.is_some() && matches!(sample.probe_status.kind, ProbeStatusKind::Done) {
            self.received = self.received + 1;
        }
        self.samples.push(sample.clone());
        proof {
            assert(self.samples@.drop_last() =~= old(self).samples@);
        }
        let transmitted = seq;
        let count = self.setting.count;
        let percent_w: u64 = (seq as u64) * 100 / (count as u64);
        proof {
            vstd::arithmetic::div_mod::lemma_div_is_ordered(
                seq as int * 100,
                count as int * 100,
                count as int,
            );
            vstd::arithmetic::div_mod::lemma_div_multiples_vanish(100, count as int);
        }
        let percent = percent_w as u32;
        PingProgressPayload {
            run_id: self.run_id.clone(),
            sample,
            transmitted,
            received: self.received,
            percent,
        }
    }

    /// Summarize a finished run. The summary is over exactly the recorded
    /// samples: `transmitted` equals the requested count and `received`
    /// counts the `Done` samples.
    pub fn finish(self) -> (r: PingStat)
        requires
            self.wf(),
            self.samples@.len() == self.setting.count,
        ensures
            r.summarizes(self.samples@),
            r.transmitted_count == self.setting.count,
            r.received_count == done_count(self.samples@),
            r.ip_addr == self.setting.ip_addr,
            r.hostname == self.setting.hostname,
            r.port == self.sample_port,
            r.protocol == self.setting.protocol,
    {
        PingStat::from_samples(
            clone_opt_string(&self.setting.hostname),
            self.setting.ip_addr,
            self.sample_port,
            self.setting.protocol,
            self.samples,
        )
    }
}

/// In a well-formed sample list a probe counts as received exactly when
/// it contributed a round-trip time: the two tallies agree.
pub proof fn lemma_done_rtts_len(s: Seq<PingSample>)
    requires
        forall|i: int| 0 <= i < s.len() ==> (#[trigger] s[i]).wf(),
    ensures
        done_rtts(s).len() == done_count(s),
    decreases s.len(),
{
    if s.len() > 0 {
        assert(forall|i: int| 0 <= i < s.drop_last().len() ==> (#[trigger] s.drop_last()[i]).wf());
        lemma_done_rtts_len(s.drop_last());
        assert(s[s.len() - 1].wf());
    }
}

/// A run's summary orders its extremes around the mean, and the extremes
/// are round-trip times of `Done` samples of the run.
pub proof fn lemma_ping_stat_rtt_bounds(stat: PingStat, m: u64, a: u64, x: u64)
    requires
        stat.summarizes(stat.samples@),
        stat.min == Some(m),
        stat.avg == Some(a),
        stat.max == Some(x),
    ensures
        m <= a <= x,
        exists|i: int|
            0 <= i < stat.samples@.len() && (#[trigger] stat.samples@[i]).probe_status.kind
                == ProbeStatusKind::Done && stat.samples@[i].rtt_ms == Some(m),
        exists|i: int|
            0 <= i < stat.samples@.len() && (#[trigger] stat.samples@[i]).probe_status.kind
                == ProbeStatusKind::Done && stat.samples@[i].rtt_ms == Some(x),
{
    let rtts = done_rtts(stat.samples@);
    assert(rtts.len() > 0);
    lemma_rtt_summary_bounds(rtts);
    lemma_done_rtts_from_samples(stat.samples@, m);
    lemma_done_rtts_from_samples(stat.samples@, x);
}

/// Statistics of a finished ping run.
#[derive(Clone, Debug)]
pub struct PingStat {
    /// Target address.
    pub ip_addr: IpAddress,
    /// Display hostname.
    pub hostname: Option<String>,
    /// Target port, where the protocol has one.
    pub port: Option<u16>,
    /// Protocol probed with.
    pub protocol: PingProtocol,
    /// All samples, in sequence order.
    pub samples: Vec<PingSample>,
    /// Number of probes sent.
    pub transmitted_count: usize,
    /// Number of probes answered.
    pub received_count: usize,
    /// Smallest round-trip time of the answered probes.
    pub min: Option<u64>,
    /// Rounded mean round-trip time of the answered probes.
    pub avg: Option<u64>,
    /// Largest round-trip time of the answered probes.
    pub max: Option<u64>,
}

impl PingStat {
    /// The statistics a sample list summarizes to: `transmitted` counts
    /// all samples, `received` the `Done` ones, and the extremes and mean
    /// are over the round-trip times of the `Done` ones only.
    pub open spec fn summarizes(self, samples: Seq<PingSample>) -> bool {
        &&& self.samples@ == samples
        &&& self.transmitted_count == samples.len()
        &&& self.received_count == done_count(samples)
        &&& if done_rtts(samples).len() == 0 {
            self.min is None && self.avg is None && self.max is None
        } else {
            &&& self.min == Some(seq_min(done_rtts(samples)))
            &&& self.avg == Some(avg_of(done_rtts(samples)) as u64)
            &&& self.max == Some(seq_max(done_rtts(samples)))
        }
    }

    /// Summarize a sample list.
    pub fn from_samples(
        hostname: Option<String>,
        ip_addr: IpAddress,
        port: Option<u16>,
        protocol: PingProtocol,
        samples: Vec<PingSample>,
    ) -> (r: PingStat)
        ensures
            r.summarizes(samples@),
            r.ip_addr == ip_addr,
            r.hostname == hostname,
            r.port == port,
            r.protocol == protocol,
    {
        let n = samples.len();
        let mut rtts: Vec<u64> = Vec::new();
        let mut received: usize = 0;
        let mut i: usize = 0;
        while i < n
            invariant
                i <= n,
                n == samples@.len(),
                rtts@ == done_rtts(samples@.take(i as int)),
                received == done_count(samples@.take(i as int)),
            decreases n - i,
        {
            proof {
                assert(samples@.take(i + 1).drop_last() =~= samples@.take(i as int));
                lemma_done_count_bounds(samples@.take(i + 1));
            }
            if samples[i].probe_status.is_ok() {
                received = received + 1;
                match samples[i].rtt_ms {
                    Some(rtt) => rtts.push(rtt),
                    None => (),
                }
            }
            proof {
                assert(rtts@ =~= done_rtts(samples@.take(i + 1)));
            }
            i = i + 1;
        }
        proof {
            assert(samples@.take(n as int) =~= samples@);
        }
        let (min, avg, max) = summarize_rtts(&rtts);
        PingStat {
            ip_addr,
            hostname,
            port,
            protocol,
            samples,
            transmitted_count: n,
            received_count: received,
            min,
            avg,
            max,
        }
    }
}

} // verus!
