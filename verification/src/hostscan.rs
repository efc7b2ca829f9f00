//! Host scan model: fan out ICMP Echo probes over a target list, demux
//! replies arriving on one shared receive socket per family, and group
//! the targets into alive and unreachable.
//!
//! The engine around the library owns the sockets and tasks; the library
//! owns the demux table keyed by destination address and the accounting
//! that the progress counter and the final report obey.

use vstd::prelude::*;

use crate::ip::IpAddress;

verus! {

/// Default bound on concurrently probed targets.
pub const HOSTS_CONCURRENCY: usize = 256;

/// Reachability of one scanned target.
#[derive(Clone, Copy, Debug, PartialEq, Eq, Structural)]
pub enum HostState {
    Alive,
    Unreachable,
}

/// Settings for a host scan.
#[derive(Clone, Debug)]
pub struct HostScanSetting {
    /// Targets to probe; families may mix.
    pub targets: Vec<IpAddress>,
    /// TTL (IPv4) or hop limit (IPv6) of outgoing probes.
    pub hop_limit: u8,
    /// Deadline of each probe, in milliseconds.
    pub timeout_ms: u64,
    /// Probe attempts per target; the first reply wins.
    pub count: u32,
    /// Echo payload; a fixed marker when absent.
    pub payload: Option<String>,
    /// Keep the target order instead of shuffling.
    pub ordered: bool,
    /// Bound on concurrently probed targets.
    pub concurrency: Option<usize>,
}

/// Payload of the event that starts a scan.
#[derive(Clone, Debug)]
pub struct HostScanStartPayload {
    pub run_id: String,
}

/// Progress record emitted once per target.
#[derive(Clone, Debug)]
pub struct HostScanProgress {
    /// The target this record is about.
    pub ip_addr: IpAddress,
    /// Whether a reply arrived.
    pub state: HostState,
    /// Round-trip time; present exactly when the target is alive.
    pub rtt_ms: Option<u64>,
    /// Why the target is unreachable, when known.
    pub message: Option<String>,
    /// Targets finished so far, this one included.
    pub done: u32,
    /// Targets in the scan.
    pub total: u32,
}

/// Final report of a scan.
#[derive(Clone, Debug)]
pub struct HostScanReport {
    /// Run this report belongs to.
    pub run_id: String,
    /// Targets that answered, with their round-trip times.
    pub alive: Vec<(IpAddress, u64)>,
    /// Targets that did not answer.
    pub unreachable: Vec<IpAddress>,
    /// Targets in the scan.
    pub total: u32,
}

/// Which families a target list touches: IPv4 and IPv6. One receive
/// socket per family actually used is opened.
pub fn families_needed(targets: &Vec<IpAddress>) -> (r: (bool, bool))
    ensures
        r.0 == exists|i: int| 0 <= i < targets@.len() && (#[trigger] targets@[i]) is V4,
        r.1 == exists|i: int| 0 <= i < targets@.len() && (#[trigger] targets@[i]) is V6,
{
    let mut any_v4 = false;
    let mut any_v6 = false;
    let n = targets.len();
    let mut i: usize = 0;
    while i < n
        invariant
            i <= n,
            n == targets@.len(),
            any_v4 == exists|j: int| 0 <= j < i && (#[trigger] targets@[j]) is V4,
            any_v6 == exists|j: int| 0 <= j < i && (#[trigger] targets@[j]) is V6,
        decreases n - i,
    {
        if targets[i].is_ipv4() {
            any_v4 = true;
        }
        if targets[i].is_ipv6() {
            any_v6 = true;
        }
        i = i + 1;
    }
    (any_v4, any_v6)
}

/// Put the targets in probing order: shuffled unless the caller asked
/// for the given order. Either way the same targets are probed.
pub fn order_targets(targets: &mut Vec<IpAddress>, ordered: bool)
    ensures
        final(targets)@.to_multiset() == old(targets)@.to_multiset(),
        ordered ==> final(targets)@ == old(targets)@,
{
    if !ordered {
        crate::orchestrator::shuffle_slice(targets);
    }
}

/// The ticket registered for a key, with the latest registration winning,
/// as the scan registers probes.
pub open spec fn pending_lookup(s: Seq<(IpAddress, u64)>, ip: IpAddress) -> Option<u64>
    decreases s.len(),
{
    if s.len() == 0 {
        None
    } else if s.last().0 == ip {
        Some(s.last().1)
    } else {
        pending_lookup(s.drop_last(), ip)
    }
}

/// Demux table of a scan: maps each in-flight destination address to the
/// caller's ticket for it. Created on send, cleared on reply or timeout;
/// replies from unknown sources find nothing and are dropped.
#[derive(Debug)]
pub struct PendingTable {
    entries: Vec<(IpAddress, u64)>,
}

impl PendingTable {
    /// What the table holds for a given address.
    pub closed spec fn spec_lookup(self, ip: IpAddress) -> Option<u64> {
        pending_lookup(self.entries@, ip)
    }

    /// An empty table.
    pub fn new() -> (r: PendingTable)
        ensures
            forall|k: IpAddress| #[trigger] r.spec_lookup(k) is None,
    {
        PendingTable { entries: Vec::new() }
    }

    /// Register a probe toward `ip` under the caller's ticket, replacing
    /// any earlier registration for the same address.
    pub fn insert(&mut self, ip: IpAddress, ticket: u64)
        ensures
            final(self).spec_lookup(ip) == Some(ticket),
            forall|k: IpAddress|
                k != ip ==> #[trigger] final(self).spec_lookup(k) == old(self).spec_lookup(k),
    {
        self.entries.push((ip, ticket));
        proof {
            assert(self.entries@.drop_last() =~= old(self).entries@);
        }
    }

    /// Take the registration for `ip` out of the table: what a reply from
    /// that source fulfils, or a timeout clears. Returns the ticket, or
    /// nothing for an unknown source.
    pub fn remove(&mut self, ip: IpAddress) -> (r: Option<u64>)
        ensures
            r == old(self).spec_lookup(ip),
            final(self).spec_lookup(ip) is None,
            forall|k: IpAddress|
                k != ip ==> #[trigger] final(self).spec_lookup(k) == old(self).spec_lookup(k),
    {
        let n = self.entries.len();
        let mut out: Vec<(IpAddress, u64)> = Vec::new();
        let mut found: Option<u64> = None;
        let mut i: usize = 0;
        while i < n
            invariant
                i <= n,
                n == self.entries@.len(),
                self.entries@ == old(self).entries@,
                found == pending_lookup(self.entries@.take(i as int), ip),
                pending_lookup(out@, ip) is None,
                forall|k: IpAddress|
                    k != ip ==> #[trigger] pending_lookup(out@, k) == pending_lookup(
                        self.entries@.take(i as int),
                        k,
                    ),
            decreases n - i,
        {
            proof {
                assert(self.entries@.take(i + 1).drop_last() =~= self.entries@.take(i as int));
                assert(self.entries@.take(i + 1).last() == self.entries@[i as int]);
            }
            let entry = self.entries[i];
            let ghost prev_out = out@;
            if entry.0.same(&ip) {
                found = Some(entry.1);
            } else {
                out.push(entry);
                proof {
                    assert(out@.drop_last() =~= prev_out);
                    assert(out@.last() == entry);
                }
            }
            proof {
                assert forall|k: IpAddress| k != ip implies #[trigger] pending_lookup(out@, k)
                    == pending_lookup(self.entries@.take(i + 1), k) by {
                    assert(pending_lookup(prev_out, k) == pending_lookup(
                        self.entries@.take(i as int),
                        k,
                    ));
                }
            }
            i = i + 1;
        }
        proof {
            assert(self.entries@.take(n as int) =~= self.entries@);
        }
        self.entries = out;
        found
    }

    /// Number of entries held.
    pub closed spec fn spec_len(self) -> nat {
        self.entries@.len()
    }

    /// Number of in-flight registrations, duplicates by replacement
    /// included until they are removed.
    pub fn len(&self) -> (r: usize)
        ensures
            r == self.spec_len(),
    {
        self.entries.len()
    }
}

/// State machine of one host scan. The engine reports one final outcome
/// per target, in any order; the machine keeps the monotone `done`
/// counter and groups the targets.
pub struct HostScanRunner {
    /// Run identifier carried in the report.
    pub run_id: String,
    /// The scan's targets.
    pub targets: Vec<IpAddress>,
    /// Targets finished so far.
    pub done: u32,
    /// Targets that answered, with round-trip times.
    pub alive: Vec<(IpAddress, u64)>,
    /// Targets that did not answer.
    pub unreachable: Vec<IpAddress>,
}

impl HostScanRunner {
    /// Invariant of a scan in progress: the counter equals the grouped
    /// results and every grouped address came from the target list.
    pub open spec fn wf(self) -> bool {
        &&& self.targets@.len() <= u32::MAX
        &&& self.done == self.alive@.len() + self.unreachable@.len()
        &&& self.done <= self.targets@.len()
        &&& forall|i: int|
            0 <= i < self.alive@.len() ==> self.targets@.contains(
                (#[trigger] self.alive@[i]).0,
            )
        &&& forall|i: int|
            0 <= i < self.unreachable@.len() ==> self.targets@.contains(
                #[trigger] self.unreachable@[i],
            )
    }

    /// Open a scan over a target list.
    pub fn new(run_id: String, targets: Vec<IpAddress>) -> (r: HostScanRunner)
        requires
            targets@.len() <= u32::MAX,
        ensures
            r.wf(),
            r.run_id == run_id,
            r.targets == targets,
            r.done == 0,
            r.alive@.len() == 0,
            r.unreachable@.len() == 0,
    {
        HostScanRunner { run_id, targets, done: 0, alive: Vec::new(), unreachable: Vec::new() }
    }

    /// Number of targets.
    pub fn total(&self) -> (r: u32)
        requires
            self.wf(),
        ensures
            r == self.targets@.len(),
    {
        self.targets.len() as u32
    }

    /// True when every target has been accounted for.
    pub fn is_complete(&self) -> (r: bool)
        requires
            self.wf(),
        ensures
            r == (self.done == self.targets@.len()),
    {
        self.done as usize == self.targets.len()
    }

    /// Record the final outcome for one target and return the progress
    /// record to emit. A round-trip time means alive; none means
    /// unreachable with the engine's message. `done` grows by exactly
    /// one, so the emitted counters are strictly increasing and never
    /// exceed `total`.
    pub fn record(&mut self, ip: IpAddress, rtt_ms: Option<u64>, message: Option<String>) -> (r:
        HostScanProgress)
        requires
            old(self).wf(),
            old(self).done < old(self).targets@.len(),
            old(self).targets@.contains(ip),
        ensures
            final(self).wf(),
            final(self).run_id == old(self).run_id,
            final(self).targets == old(self).targets,
            final(self).done == old(self).done + 1,
            r.done == final(self).done,
            r.total == old(self).targets@.len(),
            r.ip_addr == ip,
            r.state == HostState::Alive <==> rtt_ms is Some,
            r.rtt_ms == rtt_ms,
            match rtt_ms {
                Some(rtt) => {
                    &&& final(self).alive@ == old(self).alive@.push((ip, rtt))
                    &&& final(self).unreachable == old(self).unreachable
                    &&& r.message is None
                },
                None => {
                    &&& final(self).alive == old(self).alive
                    &&& final(self).unreachable@ == old(self).unreachable@.push(ip)
                    &&& r.message == message
                },
            },
    {
        let total = self.targets.len() as u32;
        self.done = self.done + 1;
        match rtt_ms {
            Some(rtt) => {
                self.alive.push((ip, rtt));
                HostScanProgress {
                    ip_addr: ip,
                    state: HostState::Alive,
                    rtt_ms: Some(rtt),
                    message: None,
                    done: self.done,
                    total,
                }
            },
            None => {
                self.unreachable.push(ip);
                HostScanProgress {
                    ip_addr: ip,
                    state: HostState::Unreachable,
                    rtt_ms: None,
                    message,
                    done: self.done,
                    total,
                }
            },
        }
    }

    /// Close a finished scan: every target stands in exactly one of the
    /// two groups by count, each grouped address is a target, and the
    /// last emitted `done` equals `total`.
    pub fn finish(self) -> (r: HostScanReport)
        requires
            self.wf(),
            self.done == self.targets@.len(),
        ensures
            r.run_id == self.run_id,
            r.total == self.targets@.len(),
            r.alive@ == self.alive@,
            r.unreachable@ == self.unreachable@,
            r.alive@.len() + r.unreachable@.len() == r.total,
            forall|i: int|
                0 <= i < r.alive@.len() ==> self.targets@.contains((#[trigger] r.alive@[i]).0),
            forall|i: int|
                0 <= i < r.unreachable@.len() ==> self.targets@.contains(
                    #[trigger] r.unreachable@[i],
                ),
    {
        let total = self.targets.len() as u32;
        HostScanReport {
            run_id: self.run_id,
            alive: self.alive,
            unreachable: self.unreachable,
            total,
        }
    }
}

} // verus!
