//! Port scan model: per-port connect attempts classified as open, closed
//! or filtered, a monotone progress counter, and a final report that
//! keeps only the open ports, sorted.

use vstd::prelude::*;

use crate::error::IoErrorKind;
use crate::ip::IpAddress;
use crate::text::clone_opt_string;

verus! {

/// Default bound on simultaneous connect attempts.
pub const PORTS_CONCURRENCY: usize = 200;

/// Protocol a port scan probes with.
#[derive(Clone, Copy, Debug, PartialEq, Eq, Structural)]
pub enum PortScanProtocol {
    Tcp,
    Quic,
}

/// Which ports a scan covers.
#[derive(Clone, Copy, Debug, PartialEq, Eq, Structural)]
pub enum TargetPortsPreset {
    /// A short list of everyday service ports.
    Common,
    /// The well-known range 1..=1023.
    WellKnown,
    /// Every port 1..=65535.
    Full,
    /// The thousand lowest ports 1..=1000.
    Top1000,
    /// Exactly the caller's list.
    Custom,
}

/// State a probed port is classified into.
#[derive(Clone, Copy, Debug, PartialEq, Eq, Structural)]
pub enum PortState {
    Open,
    Closed,
    Filtered,
}

/// Settings for a port scan.
#[derive(Clone, Debug)]
pub struct PortScanSetting {
    /// Resolved target address.
    pub ip_addr: IpAddress,
    /// Display hostname.
    pub hostname: Option<String>,
    /// Which ports to cover.
    pub target_ports_preset: TargetPortsPreset,
    /// The caller's ports, used by the `Custom` preset.
    pub user_ports: Vec<u16>,
    /// Protocol to probe with.
    pub protocol: PortScanProtocol,
    /// Deadline of each attempt, in milliseconds.
    pub timeout_ms: u64,
    /// Keep the port order instead of shuffling.
    pub ordered: bool,
}

/// Payload of the event that starts a scan.
#[derive(Clone, Debug)]
pub struct PortScanStartPayload {
    pub run_id: String,
}

/// Progress record emitted once per port; also the sample kept for open
/// ports.
#[derive(Debug)]
pub struct PortScanSample {
    /// Target address.
    pub ip_addr: IpAddress,
    /// The probed port.
    pub port: u16,
    /// Classification of the attempt.
    pub state: PortState,
    /// Handshake time; present exactly when the port is open.
    pub rtt_ms: Option<u64>,
    /// Kernel diagnostic for failed attempts.
    pub message: Option<String>,
    /// Service conventionally on this port, when known.
    pub service_name: Option<String>,
    /// Ports finished so far, this one included.
    pub done: u32,
    /// Ports in the scan.
    pub total: u32,
}

impl Clone for PortScanSample {
    /// Cloning keeps the sample.
    fn clone(&self) -> (r: Self)
        ensures
            r == *self,
    {
        PortScanSample {
            ip_addr: self.ip_addr,
            port: self.port,
            state: self.state,
            rtt_ms: self.rtt_ms,
            message: clone_opt_string(&self.message),
            service_name: clone_opt_string(&self.service_name),
            done: self.done,
            total: self.total,
        }
    }
}

/// Final report of a scan: open ports only.
#[derive(Clone, Debug)]
pub struct PortScanReport {
    /// Run this report belongs to.
    pub run_id: String,
    /// Target address.
    pub ip_addr: IpAddress,
    /// Display hostname.
    pub hostname: Option<String>,
    /// Protocol probed with.
    pub protocol: PortScanProtocol,
    /// The open ports, sorted by port number.
    pub samples: Vec<PortScanSample>,
}

/// State of a port whose TCP connect failed with the given error kind:
/// a timeout or an unreachability report means filtered, a refusal or
/// reset means closed, and so does everything else.
pub open spec fn tcp_error_state_spec(kind: IoErrorKind) -> PortState {
    match kind {
        IoErrorKind::TimedOut => PortState::Filtered,
        IoErrorKind::NetworkUnreachable => PortState::Filtered,
        IoErrorKind::HostUnreachable => PortState::Filtered,
        IoErrorKind::AddrNotAvailable => PortState::Filtered,
        IoErrorKind::ConnectionRefused => PortState::Closed,
        IoErrorKind::ConnectionReset => PortState::Closed,
        IoErrorKind::NotConnected => PortState::Closed,
        IoErrorKind::Other => PortState::Closed,
    }
}

/// Classify a failed TCP connect attempt.
pub fn classify_tcp_error(kind: IoErrorKind) -> (r: PortState)
    ensures
        r == tcp_error_state_spec(kind),
{
    match kind {
        IoErrorKind::TimedOut => PortState::Filtered,
        IoErrorKind::NetworkUnreachable => PortState::Filtered,
        IoErrorKind::HostUnreachable => PortState::Filtered,
        IoErrorKind::AddrNotAvailable => PortState::Filtered,
        IoErrorKind::ConnectionRefused => PortState::Closed,
        IoErrorKind::ConnectionReset => PortState::Closed,
        IoErrorKind::NotConnected => PortState::Closed,
        IoErrorKind::Other => PortState::Closed,
    }
}

/// Classify a failed QUIC handshake: only a timed-out handshake means
/// filtered; every other failure means closed.
pub fn classify_quic_error(kind: IoErrorKind) -> (r: PortState)
    ensures
        kind == IoErrorKind::TimedOut ==> r == PortState::Filtered,
        kind != IoErrorKind::TimedOut ==> r == PortState::Closed,
{
    if matches!(kind, IoErrorKind::TimedOut) {
        PortState::Filtered
    } else {
        PortState::Closed
    }
}

/// The everyday service ports the `Common` preset covers.
pub fn common_ports() -> (r: Vec<u16>)
    ensures
        r@.len() > 0,
        forall|i: int| 0 <= i < r@.len() ==> (#[trigger] r@[i]) >= 1,
{
    let mut v: Vec<u16> = Vec::new();
    v.push(21);
    v.push(22);
    v.push(23);
    v.push(25);
    v.push(53);
    v.push(80);
    v.push(110);
    v.push(143);
    v.push(443);
    v.push(445);
    v.push(993);
    v.push(995);
    v.push(1433);
    v.push(3306);
    v.push(3389);
    v.push(5432);
    v.push(8080);
    v.push(8443);
    proof {
        assert(forall|i: int| 0 <= i < v@.len() ==> (#[trigger] v@[i]) >= 1);
    }
    v
}

/// The consecutive ports `lo..=hi`.
fn port_range(lo: u16, hi: u16) -> (r: Vec<u16>)
    requires
        1 <= lo <= hi,
    ensures
        r@.len() == hi - lo + 1,
        forall|i: int| 0 <= i < r@.len() ==> #[trigger] r@[i] == lo + i,
{
    let mut v: Vec<u16> = Vec::new();
    let mut p: u32 = lo as u32;
    while p <= hi as u32
        invariant
            lo <= p <= hi + 1,
            v@.len() == p - lo,
            forall|i: int| 0 <= i < v@.len() ==> #[trigger] v@[i] == lo + i,
        decreases hi + 1 - p,
    {
        v.push(p as u16);
        p = p + 1;
    }
    v
}

/// Expand a preset into the concrete port list a scan covers.
pub fn expand_ports(preset: &TargetPortsPreset, user_ports: &Vec<u16>) -> (r: Vec<u16>)
    ensures
        *preset == TargetPortsPreset::Custom ==> r@ == user_ports@,
        *preset == TargetPortsPreset::WellKnown ==> r@.len() == 1023 && (forall|i: int|
            0 <= i < r@.len() ==> #[trigger] r@[i] == 1 + i),
        *preset == TargetPortsPreset::Full ==> r@.len() == 65535 && (forall|i: int|
            0 <= i < r@.len() ==> #[trigger] r@[i] == 1 + i),
        *preset == TargetPortsPreset::Top1000 ==> r@.len() == 1000 && (forall|i: int|
            0 <= i < r@.len() ==> #[trigger] r@[i] == 1 + i),
{
    match preset {
        TargetPortsPreset::Common => common_ports(),
        TargetPortsPreset::WellKnown => port_range(1, 1023),
        TargetPortsPreset::Full => port_range(1, 65535),
        TargetPortsPreset::Top1000 => port_range(1, 1000),
        TargetPortsPreset::Custom => {
            let mut v: Vec<u16> = Vec::new();
            let n = user_ports.len();
            let mut i: usize = 0;
            while i < n
                invariant
                    i <= n,
                    n == user_ports@.len(),
                    v@ == user_ports@.take(i as int),
                decreases n - i,
            {
                v.push(user_ports[i]);
                proof {
                    assert(v@ =~= user_ports@.take(i + 1));
                }
                i = i + 1;
            }
            proof {
                assert(user_ports@.take(n as int) =~= user_ports@);
            }
            v
        },
    }
}

/// Put the ports in probing order: shuffled unless the caller asked for
/// the given order. Either way the same ports are probed.
pub fn order_ports(ports: &mut Vec<u16>, ordered: bool)
    ensures
        final(ports)@.to_multiset() == old(ports)@.to_multiset(),
        ordered ==> final(ports)@ == old(ports)@,
{
    if !ordered {
        crate::orchestrator::shuffle_slice(ports);
    }
}

/// The samples are sorted by port number.
pub open spec fn sorted_by_port(s: Seq<PortScanSample>) -> bool {
    forall|i: int, j: int| 0 <= i < j < s.len() ==> #[trigger] s[i].port <= #[trigger] s[j].port
}

/// State machine of one port scan. The engine reports one outcome per
/// port, in any order; the machine keeps the monotone `done` counter and
/// retains only the open ports, sorted.
pub struct PortScanRunner {
    /// Run identifier carried in the report.
    pub run_id: String,
    /// The scan's ports, as expanded from the preset.
    pub ports: Vec<u16>,
    /// Ports finished so far.
    pub done: u32,
    /// Samples of the ports found open, sorted by port number.
    pub open_samples: Vec<PortScanSample>,
}

impl PortScanRunner {
    /// Invariant of a scan in progress: the counter never exceeds the
    /// port count, and the retained samples are open ports of the scan,
    /// sorted.
    pub open spec fn wf(self) -> bool {
        &&& self.ports@.len() <= u32::MAX
        &&& self.done <= self.ports@.len()
        &&& self.open_samples@.len() <= self.done
        &&& sorted_by_port(self.open_samples@)
        &&& forall|i: int|
            0 <= i < self.open_samples@.len() ==> (#[trigger] self.open_samples@[i]).state
                == PortState::Open && self.ports@.contains(self.open_samples@[i].port)
    }

    /// Open a scan over a port list.
    pub fn new(run_id: String, ports: Vec<u16>) -> (r: PortScanRunner)
        requires
            ports@.len() <= u32::MAX,
        ensures
            r.wf(),
            r.run_id == run_id,
            r.ports == ports,
            r.done == 0,
            r.open_samples@.len() == 0,
    {
        PortScanRunner { run_id, ports, done: 0, open_samples: Vec::new() }
    }

    /// Number of ports.
    pub fn total(&self) -> (r: u32)
        requires
            self.wf(),
        ensures
            r == self.ports@.len(),
    {
        self.ports.len() as u32
    }

    /// True when every port has been accounted for.
    pub fn is_complete(&self) -> (r: bool)
        requires
            self.wf(),
        ensures
            r == (self.done == self.ports@.len()),
    {
        self.done as usize == self.ports.len()
    }

    /// Record the outcome for one port and return the progress record to
    /// emit: exactly one per port, with a counter that grows by one. An
    /// open port's sample is also retained for the report; any other
    /// state is emitted and dropped.
    pub fn record(
        &mut self,
        ip_addr: IpAddress,
        port: u16,
        state: PortState,
        rtt_ms: Option<u64>,
        message: Option<String>,
        service_name: Option<String>,
    ) -> (r: PortScanSample)
        requires
            old(self).wf(),
            old(self).done < old(self).ports@.len(),
            old(self).ports@.contains(port),
            rtt_ms is Some <==> state == PortState::Open,
        ensures
            final(self).wf(),
            final(self).run_id == old(self).run_id,
            final(self).ports == old(self).ports,
            final(self).done == old(self).done + 1,
            r.port == port,
            r.ip_addr == ip_addr,
            r.state == state,
            r.rtt_ms == rtt_ms,
            r.done == final(self).done,
            r.total == old(self).ports@.len(),
            state == PortState::Open ==> final(self).open_samples@.len() == old(
                self,
            ).open_samples@.len() + 1 && final(self).open_samples@.to_multiset() == old(
                self,
            ).open_samples@.to_multiset().insert(r),
            state != PortState::Open ==> final(self).open_samples == old(self).open_samples,
    {
        let total = self.ports.len() as u32;
        self.done = self.done + 1;
        let sample = PortScanSample {
            ip_addr,
            port,
            state,
            rtt_ms,
            message,
            service_name,
            done: self.done,
            total,
        };
        if matches!(state, PortState::Open) {
            // Sorted insert keeps the report ordered by port number.
            let mut j: usize = 0;
            let len = self.open_samples.len();
            while j < len && self.open_samples[j].port <= port
                invariant
                    j <= len,
                    len == self.open_samples@.len(),
                    forall|k: int| 0 <= k < j ==> (#[trigger] self.open_samples@[k]).port <= port,
                decreases len - j,
            {
                j = j + 1;
            }
            let ghost before = self.open_samples@;
            self.open_samples.insert(j, sample.clone());
            proof {
                vstd::seq_lib::to_multiset_insert(before, j as int, sample);
            }
        }
        sample
    }

    /// Close a finished scan: the report keeps exactly the retained
    /// samples, all open and sorted by port number.
    pub fn finish(
        self,
        ip_addr: IpAddress,
        hostname: Option<String>,
        protocol: PortScanProtocol,
    ) -> (r: PortScanReport)
        requires
            self.wf(),
            self.done == self.ports@.len(),
        ensures
            r.run_id == self.run_id,
            r.samples@ == self.open_samples@,
            sorted_by_port(r.samples@),
            forall|i: int|
                0 <= i < r.samples@.len() ==> (#[trigger] r.samples@[i]).state == PortState::Open
                    && self.ports@.contains(r.samples@[i].port),
            r.ip_addr == ip_addr,
            r.hostname == hostname,
            r.protocol == protocol,
    {
        PortScanReport { run_id: self.run_id, ip_addr, hostname, protocol, samples: self.open_samples }
    }
}

} // verus!
