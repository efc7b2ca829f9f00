//! Traceroute model: a TTL sweep from 1 upward, a best-reply record per
//! hop, and the rule that ends the sweep at the destination.

use vstd::prelude::*;

use crate::codec::{is_destination_unreachable, is_destination_unreachable_spec, is_echo_reply, is_echo_reply_spec};
use crate::ip::IpAddress;
use crate::ping::DEFAULT_BASE_TARGET_UDP_PORT;
use crate::text::clone_opt_string;

verus! {

/// Protocol a traceroute probes with.
#[derive(Clone, Copy, Debug, PartialEq, Eq, Structural)]
pub enum TraceProtocol {
    Icmp,
    Udp,
}

/// Settings for a traceroute.
#[derive(Clone, Debug)]
pub struct TracerouteSetting {
    /// Resolved destination address.
    pub ip_addr: IpAddress,
    /// Display hostname.
    pub hostname: Option<String>,
    /// Largest TTL probed; zero stands for the default of 30.
    pub max_hops: u8,
    /// Probes per hop; zero stands for the default of 1.
    pub tries_per_hop: u8,
    /// Deadline of each probe, in milliseconds.
    pub timeout_ms: u64,
    /// Protocol to probe with.
    pub protocol: TraceProtocol,
}

/// The setting with its zero defaults filled in.
pub open spec fn sanitize_setting_spec(s: TracerouteSetting) -> TracerouteSetting {
    TracerouteSetting {
        max_hops: if s.max_hops == 0 {
            30u8
        } else {
            s.max_hops
        },
        tries_per_hop: if s.tries_per_hop == 0 {
            1u8
        } else {
            s.tries_per_hop
        },
        ..s
    }
}

/// Fill in the defaults: `max_hops == 0` becomes 30, `tries_per_hop == 0`
/// becomes 1.
pub fn sanitize_setting(setting: TracerouteSetting) -> (r: TracerouteSetting)
    ensures
        r == sanitize_setting_spec(setting),
{
    let mut setting = setting;
    if setting.max_hops == 0 {
        setting.max_hops = 30;
    }
    if setting.tries_per_hop == 0 {
        setting.tries_per_hop = 1;
    }
    setting
}

/// Result for one hop of the sweep.
#[derive(Debug)]
pub struct TraceHop {
    /// TTL of the probes this record answers for, starting at 1.
    pub hop: u8,
    /// Source of the best reply; absent when nothing came back.
    pub ip_addr: Option<IpAddress>,
    /// Round-trip time of the best reply.
    pub rtt_ms: Option<u64>,
    /// True when the destination itself answered and the sweep ends.
    pub reached: bool,
    /// Supplementary message, such as a timeout.
    pub note: Option<String>,
}

impl Clone for TraceHop {
    /// Cloning keeps the record.
    fn clone(&self) -> (r: Self)
        ensures
            r == *self,
    {
        TraceHop {
            hop: self.hop,
            ip_addr: self.ip_addr,
            rtt_ms: self.rtt_ms,
            reached: self.reached,
            note: clone_opt_string(&self.note),
        }
    }
}

impl TraceHop {
    /// The record of a hop that never answered.
    pub fn timeout(hop: u8) -> (r: TraceHop)
        ensures
            r.hop == hop,
            r.ip_addr is None,
            r.rtt_ms is None,
            !r.reached,
            r.note matches Some(n) && n@ == "timeout"@,
    {
        TraceHop {
            hop,
            ip_addr: None,
            rtt_ms: None,
            reached: false,
            note: Some(String::from_str("timeout")),
        }
    }

    /// An empty record for a hop about to be probed.
    pub fn pending(hop: u8) -> (r: TraceHop)
        ensures
            r.hop == hop,
            r.ip_addr is None,
            r.rtt_ms is None,
            !r.reached,
            r.note is None,
    {
        TraceHop { hop, ip_addr: None, rtt_ms: None, reached: false, note: None }
    }

    /// Adopt a reply as this hop's representative when it is the first,
    /// or faster than the current best.
    pub fn adopt_reply(&mut self, from: IpAddress, rtt_ms: u64)
        ensures
            final(self).hop == old(self).hop,
            final(self).reached == old(self).reached,
            match old(self).rtt_ms {
                None => final(self).rtt_ms == Some(rtt_ms) && final(self).ip_addr == Some(from)
                    && final(self).note is None,
                Some(cur) => if rtt_ms < cur {
                    final(self).rtt_ms == Some(rtt_ms) && final(self).ip_addr == Some(from)
                        && final(self).note is None
                } else {
                    *final(self) == *old(self)
                },
            },
    {
        let better = match self.rtt_ms {
            None => true,
            Some(cur) => rtt_ms < cur,
        };
        if better {
            self.rtt_ms = Some(rtt_ms);
            self.ip_addr = Some(from);
            self.note = None;
        }
    }
}

/// Whether a reply ends the sweep. In ICMP mode the destination answers
/// the probe itself with an Echo Reply; in UDP mode it reports the
/// closed high port with a Destination Unreachable. Either way the reply
/// must come from the destination; anything else marks an intermediate
/// hop.
pub open spec fn trace_reply_terminal_spec(
    protocol: TraceProtocol,
    dst: IpAddress,
    from: IpAddress,
    buf: Seq<u8>,
) -> bool {
    match protocol {
        TraceProtocol::Icmp => is_echo_reply_spec(dst, buf) && from == dst,
        TraceProtocol::Udp => is_destination_unreachable_spec(dst, buf) && from == dst,
    }
}

/// Decide whether a reply ends the sweep.
pub fn is_trace_reply_terminal(
    protocol: TraceProtocol,
    dst: &IpAddress,
    from: &IpAddress,
    buf: &[u8],
) -> (r: bool)
    ensures
        r == trace_reply_terminal_spec(protocol, *dst, *from, buf@),
{
    let same_source = from.same(dst);
    match protocol {
        TraceProtocol::Icmp => same_source && is_echo_reply(dst, buf),
        TraceProtocol::Udp => same_source && is_destination_unreachable(dst, buf),
    }
}

/// Destination port of a UDP traceroute probe: the base port advanced by
/// the TTL and the try number, so each probe aims at its own closed
/// port.
pub fn udp_trace_port(ttl: u8, try_index: u8) -> (r: u16)
    ensures
        r == DEFAULT_BASE_TARGET_UDP_PORT + ttl + try_index,
{
    DEFAULT_BASE_TARGET_UDP_PORT + (ttl as u16) + (try_index as u16)
}

/// State machine of one traceroute. The engine probes one TTL at a time,
/// records each hop in order, and stops at the destination or at
/// `max_hops`.
pub struct TraceRunner {
    /// The sanitized setting.
    pub setting: TracerouteSetting,
    /// Hop records so far, one per TTL, in increasing TTL order.
    pub hops: Vec<TraceHop>,
    /// True when the destination answered; set by the last hop.
    pub reached: bool,
}

impl TraceRunner {
    /// Invariant of a sweep in progress: hop numbers form the prefix
    /// `1..=len`, only the last hop may be terminal, and `reached` says
    /// whether it is.
    pub open spec fn wf(self) -> bool {
        &&& self.setting.max_hops >= 1
        &&& self.setting.tries_per_hop >= 1
        &&& self.hops@.len() <= self.setting.max_hops
        &&& forall|i: int| 0 <= i < self.hops@.len() ==> (#[trigger] self.hops@[i]).hop == i + 1
        &&& forall|i: int| 0 <= i < self.hops@.len() - 1 ==> !(#[trigger] self.hops@[i]).reached
        &&& self.reached == (self.hops@.len() > 0 && self.hops@.last().reached)
    }

    /// Open a sweep; the setting's zero defaults are filled in.
    pub fn new(setting: TracerouteSetting) -> (r: TraceRunner)
        ensures
            r.wf(),
            r.setting == sanitize_setting_spec(setting),
            r.hops@.len() == 0,
            !r.reached,
    {
        TraceRunner { setting: sanitize_setting(setting), hops: Vec::new(), reached: false }
    }

    /// True when the sweep is over: the destination answered or the TTL
    /// budget is spent.
    pub fn is_done(&self) -> (r: bool)
        requires
            self.wf(),
        ensures
            r == (self.reached || self.hops@.len() == self.setting.max_hops),
    {
        self.reached || self.hops.len() == self.setting.max_hops as usize
    }

    /// TTL of the next hop to probe.
    pub fn next_ttl(&self) -> (r: u8)
        requires
            self.wf(),
            self.hops@.len() < self.setting.max_hops,
        ensures
            r == self.hops@.len() + 1,
    {
        (self.hops.len() as u8) + 1
    }

    /// Record the finished hop for the next TTL. Hop records arrive in
    /// increasing TTL order; a terminal hop ends the sweep.
    pub fn record_hop(&mut self, hop: TraceHop) -> (r: TraceHop)
        requires
            old(self).wf(),
            !old(self).reached,
            old(self).hops@.len() < old(self).setting.max_hops,
            hop.hop == old(self).hops@.len() + 1,
        ensures
            final(self).wf(),
            final(self).setting == old(self).setting,
            final(self).hops@ == old(self).hops@.push(hop),
            final(self).reached == hop.reached,
            r == hop,
    {
        let emitted = hop.clone();
        self.reached = hop.reached;
        self.hops.push(hop);
        proof {
            assert(self.hops@.last() == self.hops@[self.hops@.len() - 1]);
        }
        emitted
    }

    /// Close the sweep: whether the destination was reached, and with
    /// the hop numbers forming the prefix `1..=len` of the TTL budget,
    /// a terminal hop standing last if anywhere.
    pub fn finish(self) -> (r: (bool, Vec<TraceHop>))
        requires
            self.wf(),
        ensures
            r.0 == self.reached,
            r.1@ == self.hops@,
            r.1@.len() <= self.setting.max_hops,
            forall|i: int| 0 <= i < r.1@.len() ==> (#[trigger] r.1@[i]).hop == i + 1,
            forall|i: int| 0 <= i < r.1@.len() - 1 ==> !(#[trigger] r.1@[i]).reached,
            r.0 ==> r.1@.len() > 0 && r.1@.last().reached,
    {
        (self.reached, self.hops)
    }
}

} // verus!
