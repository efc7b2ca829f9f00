//! Neighbor discovery: probe the local subnet, join the answering hosts
//! with the kernel's neighbor table, and classify each as the host
//! itself, the gateway or a name server.

use vstd::prelude::*;

use crate::hostscan::HostScanSetting;
use crate::ip::IpAddress;
use crate::neigh::NeighborTable;

verus! {

/// One discovered neighbor: its address, link-layer identity where the
/// kernel knows it, and its classification tags.
#[derive(Clone, Debug)]
pub struct NeighborHost {
    /// The neighbor's address.
    pub ip_addr: IpAddress,
    /// Its MAC address, from the kernel's neighbor table.
    pub mac_addr: Option<crate::ip::MacAddress>,
    /// Vendor of the MAC prefix, when a lookup supplied one.
    pub vendor: Option<String>,
    /// Round-trip time of the probe it answered.
    pub rtt_ms: Option<u64>,
    /// Classification tags: the host itself, the gateway, a name server.
    pub tags: Vec<String>,
}

/// Final report of a neighbor scan.
#[derive(Clone, Debug)]
pub struct NeighborScanReport {
    /// Run this report belongs to.
    pub run_id: String,
    /// The discovered neighbors.
    pub neighbors: Vec<NeighborHost>,
    /// Targets the underlying scan probed.
    pub total: u32,
}

/// The scan setting neighbor discovery uses: every host of the
/// gateway's /24 network, probed once, in order, with a second's
/// deadline.
pub fn neighbor_scan_default(gateway_v4: Option<[u8; 4]>) -> (r: HostScanSetting)
    ensures
        match gateway_v4 {
            Some(gw) => r.targets@.len() == 254 && forall|i: int|
                0 <= i < 254 ==> #[trigger] r.targets@[i] == IpAddress::V4(
                    [gw[0], gw[1], gw[2], (i + 1) as u8],
                ),
            None => r.targets@.len() == 0,
        },
        r.hop_limit == 64,
        r.timeout_ms == 1000,
        r.count == 1,
        r.payload matches Some(p) && p@ == "np:neigh"@,
        r.ordered,
        r.concurrency == Some(100usize),
{
    broadcast use vstd::array::group_array_axioms;

    let mut targets: Vec<IpAddress> = Vec::new();
    match gateway_v4 {
        Some(gw) => {
            let mut host: u16 = 1;
            while host <= 254
                invariant
                    1 <= host <= 255,
                    targets@.len() == host - 1,
                    forall|i: int|
                        0 <= i < targets@.len() ==> #[trigger] targets@[i] == IpAddress::V4(
                            [gw[0], gw[1], gw[2], (i + 1) as u8],
                        ),
                decreases 255 - host,
            {
                targets.push(IpAddress::V4([gw[0], gw[1], gw[2], host as u8]));
                host = host + 1;
            }
        },
        None => (),
    }
    HostScanSetting {
        targets,
        hop_limit: 64,
        timeout_ms: 1000,
        count: 1,
        payload: Some(String::from_str("np:neigh")),
        ordered: true,
        concurrency: Some(100),
    }
}

/// Whether an address list holds the given address.
fn contains_ip(ips: &Vec<IpAddress>, ip: &IpAddress) -> (r: bool)
    ensures
        r == ips@.contains(*ip),
{
    let n = ips.len();
    let mut i: usize = 0;
    while i < n
        invariant
            i <= n,
            n == ips@.len(),
            forall|j: int| 0 <= j < i ==> ips@[j] != *ip,
        decreases n - i,
    {
        if ips[i].same(ip) {
            return true;
        }
        i = i + 1;
    }
    false
}

/// The tags an answering host earns, in a fixed order: the scanning
/// host itself, the default gateway, a configured name server.
pub open spec fn tags_for(
    ip: IpAddress,
    self_ips: Seq<IpAddress>,
    gateway_ips: Seq<IpAddress>,
    dns_servers: Seq<IpAddress>,
) -> Seq<Seq<char>> {
    (if self_ips.contains(ip) {
        seq!["Self"@]
    } else {
        Seq::empty()
    }) + (if gateway_ips.contains(ip) {
        seq!["Gateway"@]
    } else {
        Seq::empty()
    }) + (if dns_servers.contains(ip) {
        seq!["DNS"@]
    } else {
        Seq::empty()
    })
}

/// Join the answering hosts of a scan with the kernel's neighbor table
/// and classify each: one report entry per answering host, in scan
/// order, each carrying its round-trip time, the MAC the table holds
/// for it, and its tags.
pub fn build_neighbor_report(
    run_id: String,
    alive: &Vec<(IpAddress, u64)>,
    total: u32,
    table: &NeighborTable,
    self_ips: &Vec<IpAddress>,
    gateway_ips: &Vec<IpAddress>,
    dns_servers: &Vec<IpAddress>,
) -> (r: NeighborScanReport)
    ensures
        r.run_id == run_id,
        r.total == total,
        r.neighbors@.len() == alive@.len(),
        forall|i: int|
            0 <= i < alive@.len() ==> {
                let entry = #[trigger] r.neighbors@[i];
                &&& entry.ip_addr == alive@[i].0
                &&& entry.rtt_ms == Some(alive@[i].1)
                &&& entry.mac_addr == table.spec_get(alive@[i].0)
                &&& entry.vendor is None
                &&& entry.tags@.map_values(|t: String| t@) == tags_for(
                    alive@[i].0,
                    self_ips@,
                    gateway_ips@,
                    dns_servers@,
                )
            },
{
    let n = alive.len();
    let mut neighbors: Vec<NeighborHost> = Vec::new();
    let mut i: usize = 0;
    while i < n
        invariant
            i <= n,
            n == alive@.len(),
            neighbors@.len() == i,
            forall|k: int|
                0 <= k < i ==> {
                    let entry = #[trigger] neighbors@[k];
                    &&& entry.ip_addr == alive@[k].0
                    &&& entry.rtt_ms == Some(alive@[k].1)
                    &&& entry.mac_addr == table.spec_get(alive@[k].0)
                    &&& entry.vendor is None
                    &&& entry.tags@.map_values(|t: String| t@) == tags_for(
                        alive@[k].0,
                        self_ips@,
                        gateway_ips@,
                        dns_servers@,
                    )
                },
        decreases n - i,
    {
        let (ip, rtt) = alive[i];
        let mac_addr = table.get(&ip);
        let mut tags: Vec<String> = Vec::new();
        if contains_ip(self_ips, &ip) {
            tags.push(String::from_str("Self"));
        }
        if contains_ip(gateway_ips, &ip) {
            tags.push(String::from_str("Gateway"));
        }
        if contains_ip(dns_servers, &ip) {
            tags.push(String::from_str("DNS"));
        }
        proof {
            assert(tags@.map_values(|t: String| t@) =~= tags_for(
                ip,
                self_ips@,
                gateway_ips@,
                dns_servers@,
            ));
        }
        neighbors.push(NeighborHost { ip_addr: ip, mac_addr, vendor: None, rtt_ms: Some(rtt), tags });
        i = i + 1;
    }
    NeighborScanReport { run_id, neighbors, total }
}

} // verus!
