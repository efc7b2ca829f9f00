//! Neighbor (ARP/NDP) table model: the mapping from IP to MAC address
//! and the decoders of the operating systems' neighbor records.
//!
//! The caller performs the system calls — a netlink dump on Linux, a
//! routing-socket `sysctl` on BSD-like systems, the IP-helper table on
//! Windows — and hands the raw bytes here; the decoders never panic on a
//! malformed record, they skip it and advance.

use vstd::prelude::*;

use crate::ip::{IpAddress, MacAddress};
use crate::remaining;
use vstd::string::StringSliceAdditionalSpecFns;

verus! {

/// Cache state of a neighbor entry, as the kernels report it.
#[derive(Clone, Copy, Debug, PartialEq, Eq, Structural)]
pub enum NeighborState {
    Permanent,
    Reachable,
    Stale,
    Delay,
    Probe,
    Incomplete,
}

/// Only settled entries are exposed: everything but `Incomplete`.
pub fn is_interesting_state(state: NeighborState) -> (r: bool)
    ensures
        r == (state != NeighborState::Incomplete),
{
    !matches!(state, NeighborState::Incomplete)
}

/// Error classes a routing-socket record can report in its errno field.
#[derive(Clone, Copy, Debug, PartialEq, Eq, Structural)]
pub enum NeighborError {
    AlreadyExists,
    NotFound,
    OutOfMemory,
    Other,
}

/// Map a routing message's errno to an error class: 17 (`EEXIST`),
/// 3 (`ESRCH`) and 3436 (`ENOBUFS`) are named; the rest is `Other`.
pub fn code_to_error(err: i32) -> (r: NeighborError)
    ensures
        err == 17 ==> r == NeighborError::AlreadyExists,
        err == 3 ==> r == NeighborError::NotFound,
        err == 3436 ==> r == NeighborError::OutOfMemory,
        (err != 17 && err != 3 && err != 3436) ==> r == NeighborError::Other,
{
    if err == 17 {
        NeighborError::AlreadyExists
    } else if err == 3 {
        NeighborError::NotFound
    } else if err == 3436 {
        NeighborError::OutOfMemory
    } else {
        NeighborError::Other
    }
}

/// Alignment unit of netlink messages.
pub const NLMSG_ALIGNTO: usize = 4;

/// Least multiple of four at or above `n`: how netlink records advance.
pub fn nlmsg_align(n: usize) -> (r: usize)
    requires
        n <= usize::MAX - 3,
    ensures
        r == ((n + 3) / 4) * 4,
        r % 4 == 0,
        n <= r < n + 4,
{
    ((n + 3) / 4) * 4
}

/// Least multiple of four at or above `len`, except that an empty
/// record still advances by one alignment unit: how BSD `sockaddr`
/// blocks advance.
pub fn roundup(len: usize) -> (r: usize)
    requires
        len <= usize::MAX - 3,
    ensures
        len == 0 ==> r == 4,
        len > 0 ==> r == ((len + 3) / 4) * 4 && len <= r < len + 4,
        r % 4 == 0,
        r >= 4,
{
    if len == 0 {
        4
    } else {
        ((len + 3) / 4) * 4
    }
}

/// The MAC registered for an address, with the latest registration
/// winning, as the decoders insert entries.
pub open spec fn neigh_lookup(s: Seq<(IpAddress, MacAddress)>, ip: IpAddress) -> Option<
    MacAddress,
>
    decreases s.len(),
{
    if s.len() == 0 {
        None
    } else if s.last().0 == ip {
        Some(s.last().1)
    } else {
        neigh_lookup(s.drop_last(), ip)
    }
}



/// Looking a key up in a suffix: the head entry answers only where the
/// rest of the suffix has no entry for the key.
pub proof fn lemma_neigh_lookup_skip_head(s: Seq<(IpAddress, MacAddress)>, i: int)
    requires
        0 <= i < s.len(),
    ensures
        forall|k: IpAddress|
            #[trigger] neigh_lookup(s.skip(i), k) == if neigh_lookup(s.skip(i + 1), k) is Some {
                neigh_lookup(s.skip(i + 1), k)
            } else if s[i].0 == k {
                Some(s[i].1)
            } else {
                None
            },
{
    assert forall|k: IpAddress|
        #[trigger] neigh_lookup(s.skip(i), k) == if neigh_lookup(s.skip(i + 1), k) is Some {
            neigh_lookup(s.skip(i + 1), k)
        } else if s[i].0 == k {
            Some(s[i].1)
        } else {
            None
        } by {
        lemma_neigh_lookup_cons(s.skip(i), k);
        assert(s.skip(i).drop_first() =~= s.skip(i + 1));
        assert(s.skip(i)[0] == s[i]);
    }
}

/// Unfolding a lookup at the front: the first entry answers only where
/// the rest finds nothing.
pub proof fn lemma_neigh_lookup_cons(s: Seq<(IpAddress, MacAddress)>, k: IpAddress)
    requires
        s.len() > 0,
    ensures
        neigh_lookup(s, k) == if neigh_lookup(s.drop_first(), k) is Some {
            neigh_lookup(s.drop_first(), k)
        } else if s[0].0 == k {
            Some(s[0].1)
        } else {
            None
        },
    decreases s.len(),
{
    if s.len() == 1 {
        assert(s.drop_first() =~= Seq::<(IpAddress, MacAddress)>::empty());
    } else {
        lemma_neigh_lookup_cons(s.drop_last(), k);
        assert(s.drop_last().drop_first() =~= s.drop_first().drop_last());
        assert(s.drop_first().last() == s.last());
        assert(s.drop_last()[0] == s[0]);
    }
}

/// A lookup that finds nothing means no entry carries the key.
pub proof fn lemma_neigh_lookup_none(s: Seq<(IpAddress, MacAddress)>, ip: IpAddress)
    requires
        neigh_lookup(s, ip) is None,
    ensures
        forall|i: int| 0 <= i < s.len() ==> (#[trigger] s[i]).0 != ip,
    decreases s.len(),
{
    if s.len() > 0 {
        lemma_neigh_lookup_none(s.drop_last(), ip);
        assert(forall|i: int| 0 <= i < s.len() - 1 ==> #[trigger] s[i] == s.drop_last()[i]);
    }
}

/// What a pair list holds for a given address, searched from the end.
fn lookup_pairs(pairs: &Vec<(IpAddress, MacAddress)>, ip: &IpAddress) -> (r: Option<MacAddress>)
    ensures
        r == neigh_lookup(pairs@, *ip),
{
    let mut i: usize = pairs.len();
    proof {
        assert(pairs@.take(pairs@.len() as int) =~= pairs@);
    }
    while i > 0
        invariant
            i <= pairs@.len(),
            neigh_lookup(pairs@, *ip) == neigh_lookup(pairs@.take(i as int), *ip),
        decreases i,
    {
        proof {
            assert(pairs@.take(i as int).drop_last() =~= pairs@.take(i - 1));
            assert(pairs@.take(i as int).last() == pairs@[i - 1]);
        }
        let entry = pairs[i - 1];
        if entry.0.same(ip) {
            return Some(entry.1);
        }
        i = i - 1;
    }
    proof {
        assert(pairs@.take(0) =~= Seq::<(IpAddress, MacAddress)>::empty());
    }
    None
}

/// The neighbor table: a mapping from IP to MAC address. Keys are
/// unique by construction — a later entry for the same address replaces
/// the earlier one.
#[derive(Debug)]
pub struct NeighborTable {
    entries: Vec<(IpAddress, MacAddress)>,
}

impl NeighborTable {
    /// What the table holds for a given address.
    pub closed spec fn spec_get(self, ip: IpAddress) -> Option<MacAddress> {
        neigh_lookup(self.entries@, ip)
    }

    /// Number of live registrations the mapping can at most hold.
    pub closed spec fn spec_len(self) -> nat {
        self.entries@.len()
    }

    /// An empty table.
    pub fn new() -> (r: NeighborTable)
        ensures
            forall|k: IpAddress| #[trigger] r.spec_get(k) is None,
            r.spec_len() == 0,
    {
        NeighborTable { entries: Vec::new() }
    }

    /// Register a neighbor, replacing any earlier entry for the same
    /// address.
    pub fn insert(&mut self, ip: IpAddress, mac: MacAddress)
        ensures
            final(self).spec_get(ip) == Some(mac),
            forall|k: IpAddress|
                k != ip ==> #[trigger] final(self).spec_get(k) == old(self).spec_get(k),
            final(self).spec_len() == old(self).spec_len() + 1,
    {
        self.entries.push((ip, mac));
        proof {
            assert(self.entries@.drop_last() =~= old(self).entries@);
        }
    }

    /// Look a neighbor up.
    pub fn get(&self, ip: &IpAddress) -> (r: Option<MacAddress>)
        ensures
            r == self.spec_get(*ip),
    {
        let mut i: usize = self.entries.len();
        proof {
            assert(self.entries@.take(self.entries@.len() as int) =~= self.entries@);
        }
        while i > 0
            invariant
                i <= self.entries@.len(),
                neigh_lookup(self.entries@, *ip) == neigh_lookup(
                    self.entries@.take(i as int),
                    *ip,
                ),
            decreases i,
        {
            proof {
                assert(self.entries@.take(i as int).drop_last() =~= self.entries@.take(i - 1));
                assert(self.entries@.take(i as int).last() == self.entries@[i - 1]);
            }
            let entry = self.entries[i - 1];
            if entry.0.same(ip) {
                return Some(entry.1);
            }
            i = i - 1;
        }
        proof {
            assert(self.entries@.take(0) =~= Seq::<(IpAddress, MacAddress)>::empty());
        }
        None
    }


    /// The mapping as a pair list with unique keys: what an iteration
    /// over the table sees.
    pub fn to_pairs(&self) -> (r: Vec<(IpAddress, MacAddress)>)
        ensures
            forall|k: IpAddress| #[trigger] neigh_lookup(r@, k) == self.spec_get(k),
            forall|i: int, j: int| 0 <= i < j < r@.len() ==> (#[trigger] r@[i]).0 != (#[trigger] r@[j]).0,
    {
        let n = self.entries.len();
        let mut out: Vec<(IpAddress, MacAddress)> = Vec::new();
        let mut idx: usize = n;
        proof {
            assert(self.entries@.skip(n as int) =~= Seq::<(IpAddress, MacAddress)>::empty());
        }
        while idx > 0
            invariant
                idx <= n,
                n == self.entries@.len(),
                forall|k: IpAddress|
                    #[trigger] neigh_lookup(out@, k) == neigh_lookup(
                        self.entries@.skip(idx as int),
                        k,
                    ),
                forall|i: int, j: int|
                    0 <= i < j < out@.len() ==> (#[trigger] out@[i]).0 != (#[trigger] out@[j]).0,
            decreases idx,
        {
            let entry = self.entries[idx - 1];
            let ghost prev = out@;
            let present = lookup_pairs(&out, &entry.0);
            if present.is_none() {
                out.push(entry);
                proof {
                    assert(out@.drop_last() =~= prev);
                    lemma_neigh_lookup_none(prev, entry.0);
                }
            }
            proof {
                let suffix = self.entries@.skip(idx - 1);
                assert(suffix.drop_first() =~= self.entries@.skip(idx as int));
                lemma_neigh_lookup_skip_head(self.entries@, idx - 1);
                assert forall|k: IpAddress| #[trigger] neigh_lookup(out@, k) == neigh_lookup(
                    self.entries@.skip(idx - 1),
                    k,
                ) by {
                    assert(neigh_lookup(prev, k) == neigh_lookup(self.entries@.skip(idx as int), k));
                }
            }
            idx = idx - 1;
        }
        proof {
            assert(self.entries@.skip(0) =~= self.entries@);
        }
        out
    }

    /// True when the mapping holds nothing.
    pub fn is_empty(&self) -> (r: bool)
        ensures
            r == (self.spec_len() == 0),
    {
        self.entries.len() == 0
    }
}


/// `roundup` as a mathematical function.
pub open spec fn spec_roundup(len: int) -> int {
    if len == 0 {
        4
    } else {
        ((len + 3) / 4) * 4
    }
}

/// Address family numbers of BSD socket addresses.
pub const AF_INET: u8 = 2;

/// Link-layer family number of BSD socket addresses.
pub const AF_LINK: u8 = 18;

/// The IPv4 address whose octets start at `off`.
pub open spec fn ipv4_at(b: Seq<u8>, off: int) -> IpAddress {
    IpAddress::V4([b[off], b[off + 1], b[off + 2], b[off + 3]])
}

/// The MAC address whose octets start at `off`.
pub open spec fn mac_at(b: Seq<u8>, off: int) -> MacAddress {
    MacAddress { octets: [b[off], b[off + 1], b[off + 2], b[off + 3], b[off + 4], b[off + 5]] }
}

/// Walk of the `sockaddr` block behind a routing message: records are
/// four-byte aligned, an `AF_INET` record carries the target IPv4
/// address at byte four, an `AF_LINK` record carries the MAC address
/// behind its name field, and the first complete pair wins. Records
/// that claim to extend past the buffer are skipped.
pub open spec fn arp_pair_walk(
    msg: Seq<u8>,
    off: int,
    ip: Option<IpAddress>,
    mac: Option<MacAddress>,
) -> Option<(IpAddress, MacAddress)>
    decreases remaining(msg.len() as int, off),
{
    if off < 0 || off + 16 > msg.len() {
        None
    } else {
        let sa_len = msg[off] as int;
        if sa_len == 0 {
            arp_pair_walk(msg, off + 4, ip, mac)
        } else if off + sa_len > msg.len() {
            arp_pair_walk(msg, off + spec_roundup(sa_len), ip, mac)
        } else if msg[off + 1] == AF_INET {
            let ip2 = ipv4_at(msg, off + 4);
            match mac {
                Some(m) => Some((ip2, m)),
                None => arp_pair_walk(msg, off + spec_roundup(sa_len), Some(ip2), mac),
            }
        } else if msg[off + 1] == AF_LINK {
            let nlen = msg[off + 5] as int;
            let alen = msg[off + 6] as int;
            if sa_len >= 20 && alen >= 6 && 8 + nlen + alen <= sa_len {
                let mac2 = mac_at(msg, off + 8 + nlen);
                match ip {
                    Some(i) => Some((i, mac2)),
                    None => arp_pair_walk(msg, off + spec_roundup(sa_len), ip, Some(mac2)),
                }
            } else {
                arp_pair_walk(msg, off + spec_roundup(sa_len), ip, mac)
            }
        } else {
            arp_pair_walk(msg, off + spec_roundup(sa_len), ip, mac)
        }
    }
}

/// The `(IP, MAC)` pair a routing message's address block holds, if a
/// complete one is there.
pub open spec fn message_arp_pair_spec(msg: Seq<u8>) -> Option<(IpAddress, MacAddress)> {
    arp_pair_walk(msg, 0, None, None)
}

/// Extract the `(IP, MAC)` pair from a routing message's address block:
/// the byte block that follows the fixed routing-message header.
pub fn message_to_arppair(msg: &[u8]) -> (r: Option<(IpAddress, MacAddress)>)
    requires
        msg@.len() <= usize::MAX - 272,
    ensures
        r == message_arp_pair_spec(msg@),
{
    broadcast use vstd::array::group_array_axioms;

    let len = msg.len();
    let mut off: usize = 0;
    let mut ip: Option<IpAddress> = None;
    let mut mac: Option<MacAddress> = None;
    loop
        invariant
            len == msg@.len(),
            len <= usize::MAX - 272,
            off <= len + 272,
            arp_pair_walk(msg@, 0int, None, None) == arp_pair_walk(msg@, off as int, ip, mac),
        decreases remaining(len as int, off as int),
    {
        if off > len || len - off < 16 {
            return None;
        }
        let sa_len = msg[off] as usize;
        if sa_len == 0 {
            off = off + 4;
        } else if sa_len > len - off {
            off = off + roundup(sa_len);
        } else {
            let family = msg[off + 1];
            if family == AF_INET {
                let a: [u8; 4] = [msg[off + 4], msg[off + 5], msg[off + 6], msg[off + 7]];
                let ip2 = IpAddress::V4(a);
                proof {
                    assert(a@ =~= seq![
                        msg@[off + 4],
                        msg@[off + 5],
                        msg@[off + 6],
                        msg@[off + 7],
                    ]);
                    assert(ip2 == ipv4_at(msg@, off + 4)) by {
                        assert(a =~= [msg@[off + 4], msg@[off + 5], msg@[off + 6], msg@[off + 7]]);
                    }
                }
                match mac {
                    Some(m) => {
                        return Some((ip2, m));
                    },
                    None => {
                        ip = Some(ip2);
                        off = off + roundup(sa_len);
                    },
                }
            } else if family == AF_LINK {
                let nlen = msg[off + 5] as usize;
                let alen = msg[off + 6] as usize;
                if sa_len >= 20 && alen >= 6 && 8 + nlen + alen <= sa_len {
                    let base = off + 8 + nlen;
                    let o: [u8; 6] = [
                        msg[base],
                        msg[base + 1],
                        msg[base + 2],
                        msg[base + 3],
                        msg[base + 4],
                        msg[base + 5],
                    ];
                    let mac2 = MacAddress { octets: o };
                    proof {
                        assert(mac2 == mac_at(msg@, base as int)) by {
                            assert(o =~= [
                                msg@[base as int],
                                msg@[base + 1],
                                msg@[base + 2],
                                msg@[base + 3],
                                msg@[base + 4],
                                msg@[base + 5],
                            ]);
                        }
                    }
                    match ip {
                        Some(i) => {
                            return Some((i, mac2));
                        },
                        None => {
                            mac = Some(mac2);
                            off = off + roundup(sa_len);
                        },
                    }
                } else {
                    off = off + roundup(sa_len);
                }
            } else {
                off = off + roundup(sa_len);
            }
        }
    }
}


/// Four-byte alignment as a mathematical function.
pub open spec fn spec_align4(n: int) -> int {
    ((n + 3) / 4) * 4
}

/// The 16-bit little-endian value at byte offset `off`.
pub open spec fn u16_le_at(b: Seq<u8>, off: int) -> int {
    b[off] + 256 * b[off + 1]
}

/// The 32-bit little-endian value at byte offset `off`.
pub open spec fn u32_le_at(b: Seq<u8>, off: int) -> int {
    b[off] + 256 * b[off + 1] + 65536 * b[off + 2] + 16777216 * b[off + 3]
}

/// The error class for a raw errno word, `code_to_error` as a
/// mathematical function.
pub open spec fn code_to_error_spec(err: int) -> NeighborError {
    if err == 17 {
        NeighborError::AlreadyExists
    } else if err == 3 {
        NeighborError::NotFound
    } else if err == 3436 {
        NeighborError::OutOfMemory
    } else {
        NeighborError::Other
    }
}

/// Size of the fixed routing-message header the `sysctl` dump uses.
pub const RT_MSGHDR_LEN: usize = 92;

/// Version of routing messages this decoder understands.
pub const RTM_VERSION: u8 = 5;

/// Walk of a routing-socket `sysctl` dump: a sequence of records, each
/// a fixed header followed by a `sockaddr` block. A record of another
/// version is skipped, a nonzero errno aborts the dump, and each
/// complete `(IP, MAC)` pair is collected in order.
pub open spec fn route_dump_walk(
    buf: Seq<u8>,
    off: int,
    acc: Seq<(IpAddress, MacAddress)>,
) -> Result<Seq<(IpAddress, MacAddress)>, int>
    decreases remaining(buf.len() as int, off),
{
    if off < 0 || off + 92 > buf.len() {
        Ok(acc)
    } else {
        let msglen = u16_le_at(buf, off);
        if msglen == 0 || off + msglen > buf.len() {
            Ok(acc)
        } else if buf[off + 2] != RTM_VERSION {
            route_dump_walk(buf, off + msglen, acc)
        } else if u32_le_at(buf, off + 24) != 0 {
            Err(u32_le_at(buf, off + 24))
        } else if msglen < 92 {
            route_dump_walk(buf, off + msglen, acc)
        } else {
            match message_arp_pair_spec(buf.subrange(off + 92, off + msglen)) {
                Some(pair) => route_dump_walk(buf, off + msglen, acc.push(pair)),
                None => route_dump_walk(buf, off + msglen, acc),
            }
        }
    }
}

/// Decode a routing-socket `sysctl` dump into the neighbor table. Each
/// record yields at most one entry; a later record for the same address
/// replaces the earlier one; a record with a nonzero errno aborts the
/// dump with its error class.
pub fn parse_routing_dump(buf: &[u8]) -> (r: Result<NeighborTable, NeighborError>)
    requires
        buf@.len() <= usize::MAX - 65808,
    ensures
        match route_dump_walk(buf@, 0, Seq::empty()) {
            Ok(pairs) => r matches Ok(t) && (forall|k: IpAddress|
                #[trigger] t.spec_get(k) == neigh_lookup(pairs, k)),
            Err(code) => r matches Err(e) && e == code_to_error_spec(code),
        },
{
    let len = buf.len();
    let mut off: usize = 0;
    let mut table = NeighborTable::new();
    let ghost mut acc: Seq<(IpAddress, MacAddress)> = Seq::empty();
    loop
        invariant
            len == buf@.len(),
            len <= usize::MAX - 65808,
            route_dump_walk(buf@, 0, Seq::empty()) == route_dump_walk(buf@, off as int, acc),
            forall|k: IpAddress| #[trigger] table.spec_get(k) == neigh_lookup(acc, k),
        decreases remaining(len as int, off as int),
    {
        if off > len || len - off < 92 {
            return Ok(table);
        }
        let msglen = (buf[off] as usize) + 256 * (buf[off + 1] as usize);
        if msglen == 0 || msglen > len - off {
            return Ok(table);
        }
        if buf[off + 2] != RTM_VERSION {
            off = off + msglen;
            continue;
        }
        let errno: u64 = (buf[off + 24] as u64) + 256 * (buf[off + 25] as u64) + 65536 * (buf[off
            + 26] as u64) + 16777216 * (buf[off + 27] as u64);
        if errno != 0 {
            let e = if errno == 17 {
                NeighborError::AlreadyExists
            } else if errno == 3 {
                NeighborError::NotFound
            } else if errno == 3436 {
                NeighborError::OutOfMemory
            } else {
                NeighborError::Other
            };
            return Err(e);
        }
        if msglen < 92 {
            off = off + msglen;
            continue;
        }
        let block = &buf[off + 92..off + msglen];
        proof {
            assert(block@ == buf@.subrange(off + 92, off + msglen));
        }
        match message_to_arppair(block) {
            Some(pair) => {
                table.insert(pair.0, pair.1);
                proof {
                    let prev = acc;
                    acc = acc.push(pair);
                    assert(acc.drop_last() =~= prev);
                    assert forall|k: IpAddress| #[trigger] table.spec_get(k) == neigh_lookup(
                        acc,
                        k,
                    ) by {
                        if k != pair.0 {
                            assert(neigh_lookup(acc, k) == neigh_lookup(prev, k));
                        }
                    }
                }
            },
            None => (),
        }
        off = off + msglen;
    }
}


/// Netlink message type: end of a multipart dump.
pub const NLMSG_DONE: u16 = 3;

/// Netlink message type: error report.
pub const NLMSG_ERROR: u16 = 2;

/// Netlink message type: no-op.
pub const NLMSG_NOOP: u16 = 1;

/// Netlink message type: receive buffer overrun.
pub const NLMSG_OVERRUN: u16 = 4;

/// Route-netlink message type: a neighbor entry of a dump.
pub const RTM_NEWNEIGH: u16 = 28;

/// Neighbor cache state bit: the entry is still being resolved.
pub const NUD_INCOMPLETE: u16 = 1;

/// The IPv6 address whose octets start at `off`.
pub open spec fn ipv6_at(b: Seq<u8>, off: int) -> IpAddress {
    IpAddress::V6(
        [
            b[off],
            b[off + 1],
            b[off + 2],
            b[off + 3],
            b[off + 4],
            b[off + 5],
            b[off + 6],
            b[off + 7],
            b[off + 8],
            b[off + 9],
            b[off + 10],
            b[off + 11],
            b[off + 12],
            b[off + 13],
            b[off + 14],
            b[off + 15],
        ],
    )
}

/// Walk of the attributes of one neighbor message: each attribute is a
/// four-byte header (length, type) and a payload, advancing four-byte
/// aligned. A destination attribute of four or sixteen bytes carries
/// the IP; a link-layer attribute of six bytes carries the MAC; a later
/// attribute of the same type wins.
pub open spec fn neigh_attr_walk(
    msg: Seq<u8>,
    off: int,
    ip: Option<IpAddress>,
    mac: Option<MacAddress>,
) -> (Option<IpAddress>, Option<MacAddress>)
    decreases remaining(msg.len() as int, off),
{
    if off < 0 || off + 4 > msg.len() {
        (ip, mac)
    } else {
        let alen = u16_le_at(msg, off);
        let atyp = u16_le_at(msg, off + 2);
        if alen < 4 || off + alen > msg.len() {
            (ip, mac)
        } else {
            let next = off + spec_align4(alen);
            if atyp == 1 && alen == 8 {
                neigh_attr_walk(msg, next, Some(ipv4_at(msg, off + 4)), mac)
            } else if atyp == 1 && alen == 20 {
                neigh_attr_walk(msg, next, Some(ipv6_at(msg, off + 4)), mac)
            } else if atyp == 2 && alen == 10 {
                neigh_attr_walk(msg, next, ip, Some(mac_at(msg, off + 4)))
            } else {
                neigh_attr_walk(msg, next, ip, mac)
            }
        }
    }
}

/// Extract the destination address and link-layer address from the
/// attribute block of one neighbor message.
pub fn parse_neigh_attrs(msg: &[u8]) -> (r: (Option<IpAddress>, Option<MacAddress>))
    requires
        msg@.len() <= usize::MAX - 65808,
    ensures
        r == neigh_attr_walk(msg@, 0, None, None),
{
    broadcast use vstd::array::group_array_axioms;

    let len = msg.len();
    let mut off: usize = 0;
    let mut ip: Option<IpAddress> = None;
    let mut mac: Option<MacAddress> = None;
    loop
        invariant
            len == msg@.len(),
            len <= usize::MAX - 65808,
            neigh_attr_walk(msg@, 0, None, None) == neigh_attr_walk(msg@, off as int, ip, mac),
        decreases remaining(len as int, off as int),
    {
        if off > len || len - off < 4 {
            return (ip, mac);
        }
        let alen = (msg[off] as usize) + 256 * (msg[off + 1] as usize);
        let atyp = (msg[off + 2] as usize) + 256 * (msg[off + 3] as usize);
        if alen < 4 || alen > len - off {
            return (ip, mac);
        }
        let next = off + nlmsg_align(alen);
        if atyp == 1 && alen == 8 {
            let a: [u8; 4] = [msg[off + 4], msg[off + 5], msg[off + 6], msg[off + 7]];
            let ip2 = IpAddress::V4(a);
            proof {
                assert(ip2 == ipv4_at(msg@, off + 4)) by {
                    assert(a =~= [msg@[off + 4], msg@[off + 5], msg@[off + 6], msg@[off + 7]]);
                }
            }
            ip = Some(ip2);
        } else if atyp == 1 && alen == 20 {
            let b = off + 4;
            let a: [u8; 16] = [
                msg[b],
                msg[b + 1],
                msg[b + 2],
                msg[b + 3],
                msg[b + 4],
                msg[b + 5],
                msg[b + 6],
                msg[b + 7],
                msg[b + 8],
                msg[b + 9],
                msg[b + 10],
                msg[b + 11],
                msg[b + 12],
                msg[b + 13],
                msg[b + 14],
                msg[b + 15],
            ];
            let ip2 = IpAddress::V6(a);
            proof {
                assert(ip2 == ipv6_at(msg@, b as int)) by {
                    assert(a =~= [
                        msg@[b as int],
                        msg@[b + 1],
                        msg@[b + 2],
                        msg@[b + 3],
                        msg@[b + 4],
                        msg@[b + 5],
                        msg@[b + 6],
                        msg@[b + 7],
                        msg@[b + 8],
                        msg@[b + 9],
                        msg@[b + 10],
                        msg@[b + 11],
                        msg@[b + 12],
                        msg@[b + 13],
                        msg@[b + 14],
                        msg@[b + 15],
                    ]);
                }
            }
            ip = Some(ip2);
        } else if atyp == 2 && alen == 10 {
            let b = off + 4;
            let o: [u8; 6] = [msg[b], msg[b + 1], msg[b + 2], msg[b + 3], msg[b + 4], msg[b + 5]];
            let mac2 = MacAddress { octets: o };
            proof {
                assert(mac2 == mac_at(msg@, b as int)) by {
                    assert(o =~= [
                        msg@[b as int],
                        msg@[b + 1],
                        msg@[b + 2],
                        msg@[b + 3],
                        msg@[b + 4],
                        msg@[b + 5],
                    ]);
                }
            }
            mac = Some(mac2);
        }
        off = next;
    }
}

/// Walk of one netlink datagram of a neighbor dump: length-prefixed
/// messages, four-byte aligned. Messages of another sequence number are
/// skipped; `NLMSG_DONE` ends the dump; an `NLMSG_ERROR` with a nonzero
/// code aborts it; each settled neighbor message with a destination and
/// a six-byte link-layer address is collected in order. Entries still
/// being resolved are ignored.
pub open spec fn netlink_neigh_walk(
    buf: Seq<u8>,
    off: int,
    expect_seq: int,
    acc: Seq<(IpAddress, MacAddress)>,
) -> (Seq<(IpAddress, MacAddress)>, bool, Option<int>)
    decreases remaining(buf.len() as int, off),
{
    if off < 0 || off + 16 > buf.len() {
        (acc, false, None)
    } else {
        let mlen = u32_le_at(buf, off);
        if mlen < 16 || off + mlen > buf.len() {
            (acc, false, None)
        } else {
            let typ = u16_le_at(buf, off + 4);
            let seqno = u32_le_at(buf, off + 8);
            let next = off + spec_align4(mlen);
            if seqno != expect_seq {
                netlink_neigh_walk(buf, next, expect_seq, acc)
            } else if typ == NLMSG_DONE {
                (acc, true, None)
            } else if typ == NLMSG_ERROR {
                if mlen >= 20 && u32_le_at(buf, off + 16) != 0 {
                    (acc, false, Some(u32_le_at(buf, off + 16)))
                } else {
                    netlink_neigh_walk(buf, next, expect_seq, acc)
                }
            } else if typ == NLMSG_NOOP || typ == NLMSG_OVERRUN {
                netlink_neigh_walk(buf, next, expect_seq, acc)
            } else if typ == RTM_NEWNEIGH && mlen >= 28 {
                let state = u16_le_at(buf, off + 24);
                let attrs = neigh_attr_walk(buf.subrange(off + 28, off + mlen), 0, None, None);
                if state != NUD_INCOMPLETE && attrs.0 is Some && attrs.1 is Some {
                    netlink_neigh_walk(
                        buf,
                        next,
                        expect_seq,
                        acc.push((attrs.0->0, attrs.1->0)),
                    )
                } else {
                    netlink_neigh_walk(buf, next, expect_seq, acc)
                }
            } else {
                netlink_neigh_walk(buf, next, expect_seq, acc)
            }
        }
    }
}

/// Decode one netlink datagram of a neighbor dump. Returns the entries
/// it holds in order, whether the dump is finished, and the error code
/// it reported, if any.
pub fn parse_netlink_neigh_dump(buf: &[u8], expect_seq: u32) -> (r: (
    Vec<(IpAddress, MacAddress)>,
    bool,
    Option<NeighborError>,
))
    requires
        buf@.len() <= usize::MAX - 65808,
    ensures
        ({
            let (pairs, done, err) = netlink_neigh_walk(buf@, 0, expect_seq as int, Seq::empty());
            &&& r.0@ == pairs
            &&& r.1 == done
            &&& match err {
                Some(code) => r.2 matches Some(e) && e == code_to_error_spec(code),
                None => r.2 is None,
            }
        }),
{
    let len = buf.len();
    let mut off: usize = 0;
    let mut out: Vec<(IpAddress, MacAddress)> = Vec::new();
    loop
        invariant
            len == buf@.len(),
            len <= usize::MAX - 65808,
            netlink_neigh_walk(buf@, 0, expect_seq as int, Seq::empty()) == netlink_neigh_walk(
                buf@,
                off as int,
                expect_seq as int,
                out@,
            ),
        decreases remaining(len as int, off as int),
    {
        if off > len || len - off < 16 {
            return (out, false, None);
        }
        let mlen = (buf[off] as usize) + 256 * (buf[off + 1] as usize) + 65536 * (buf[off
            + 2] as usize) + 16777216 * (buf[off + 3] as usize);
        if mlen < 16 || mlen > len - off {
            return (out, false, None);
        }
        let typ = (buf[off + 4] as usize) + 256 * (buf[off + 5] as usize);
        let seqno: u64 = (buf[off + 8] as u64) + 256 * (buf[off + 9] as u64) + 65536 * (buf[off
            + 10] as u64) + 16777216 * (buf[off + 11] as u64);
        let next = off + nlmsg_align(mlen);
        if seqno != expect_seq as u64 {
            off = next;
            continue;
        }
        if typ == 3 {
            return (out, true, None);
        }
        if typ == 2 {
            if mlen >= 20 {
                let code: u64 = (buf[off + 16] as u64) + 256 * (buf[off + 17] as u64) + 65536 * (
                buf[off + 18] as u64) + 16777216 * (buf[off + 19] as u64);
                if code != 0 {
                    let e = if code == 17 {
                        NeighborError::AlreadyExists
                    } else if code == 3 {
                        NeighborError::NotFound
                    } else if code == 3436 {
                        NeighborError::OutOfMemory
                    } else {
                        NeighborError::Other
                    };
                    return (out, false, Some(e));
                }
            }
            off = next;
            continue;
        }
        if typ == 1 || typ == 4 {
            off = next;
            continue;
        }
        if typ == 28 && mlen >= 28 {
            let state = (buf[off + 24] as usize) + 256 * (buf[off + 25] as usize);
            let attrs_block = &buf[off + 28..off + mlen];
            proof {
                assert(attrs_block@ == buf@.subrange(off + 28, off + mlen));
            }
            let (ipo, maco) = parse_neigh_attrs(attrs_block);
            match (ipo, maco) {
                (Some(ip), Some(mac)) => {
                    if state != 1 {
                        let ghost prev = out@;
                        out.push((ip, mac));
                        proof {
                            assert(out@.drop_last() =~= prev);
                        }
                    }
                },
                _ => (),
            }
            off = next;
            continue;
        }
        off = next;
    }
}


/// A hexadecimal digit byte, either case.
pub open spec fn is_hex_digit(b: u8) -> bool {
    (48 <= b <= 57) || (97 <= b <= 102) || (65 <= b <= 70)
}

/// Value of a hexadecimal digit byte.
pub open spec fn hex_val(b: u8) -> int {
    if 48 <= b <= 57 {
        b - 48
    } else if 97 <= b <= 102 {
        b - 87
    } else {
        b - 55
    }
}

/// A byte that separates the groups of a MAC text: `:` or `-`.
pub open spec fn is_mac_sep(b: u8) -> bool {
    b == 58 || b == 45
}

/// Walk of a MAC text: six groups of one or two hexadecimal digits,
/// separated by colons or dashes.
pub open spec fn mac_text_walk(s: Seq<u8>, off: int, acc: Seq<u8>) -> Option<MacAddress>
    decreases crate::remaining(s.len() as int, off),
{
    if off < 0 || off >= s.len() || !is_hex_digit(s[off]) {
        None
    } else {
        let two = off + 1 < s.len() && is_hex_digit(s[off + 1]);
        let v: int = if two {
            16 * hex_val(s[off]) + hex_val(s[off + 1])
        } else {
            hex_val(s[off])
        };
        let end = if two {
            off + 2
        } else {
            off + 1
        };
        if end == s.len() {
            if acc.len() == 5 {
                Some(
                    MacAddress {
                        octets: [acc[0], acc[1], acc[2], acc[3], acc[4], v as u8],
                    },
                )
            } else {
                None
            }
        } else if is_mac_sep(s[end]) && acc.len() < 5 {
            mac_text_walk(s, end + 1, acc.push(v as u8))
        } else {
            None
        }
    }
}

/// The MAC address a byte string spells, if it spells one: six groups
/// of one or two hexadecimal digits, separated by `:` or `-`.
pub open spec fn spec_parse_mac(s: Seq<u8>) -> Option<MacAddress> {
    mac_text_walk(s, 0, Seq::empty())
}

/// Parse a MAC text such as `00:11:22:33:44:55` or `00-11-22-33-44-55`.
pub fn parse_mac_bytes(s: &[u8]) -> (r: Option<MacAddress>)
    ensures
        r == spec_parse_mac(s@),
{
    broadcast use vstd::array::group_array_axioms;

    let len = s.len();
    let mut off: usize = 0;
    let mut acc: Vec<u8> = Vec::new();
    loop
        invariant
            len == s@.len(),
            off <= len,
            acc@.len() <= 5,
            mac_text_walk(s@, 0, Seq::empty()) == mac_text_walk(s@, off as int, acc@),
        decreases len - off,
    {
        if off >= len || !is_hex_digit_byte(s[off]) {
            return None;
        }
        let two = off + 1 < len && is_hex_digit_byte(s[off + 1]);
        let v: u8 = if two {
            16 * hex_digit_value(s[off]) + hex_digit_value(s[off + 1])
        } else {
            hex_digit_value(s[off])
        };
        let end = if two {
            off + 2
        } else {
            off + 1
        };
        if end == len {
            if acc.len() == 5 {
                let o: [u8; 6] = [acc[0], acc[1], acc[2], acc[3], acc[4], v];
                let r = MacAddress { octets: o };
                proof {
                    assert(o =~= [acc@[0], acc@[1], acc@[2], acc@[3], acc@[4], v]);
                }
                return Some(r);
            }
            return None;
        }
        if (s[end] == 58 || s[end] == 45) && acc.len() < 5 {
            acc.push(v);
            proof {
                assert(acc@.drop_last() =~= acc@.take(acc@.len() - 1));
            }
            off = end + 1;
        } else {
            return None;
        }
    }
}

/// Parse a MAC text given as a string slice.
pub fn parse_mac_str(s: &str) -> (r: Option<MacAddress>)
    ensures
        r == spec_parse_mac(s.spec_bytes()),
{
    parse_mac_bytes(s.as_bytes())
}

/// Decide whether a byte is a hexadecimal digit.
fn is_hex_digit_byte(b: u8) -> (r: bool)
    ensures
        r == is_hex_digit(b),
{
    (48 <= b && b <= 57) || (97 <= b && b <= 102) || (65 <= b && b <= 70)
}

/// Value of a hexadecimal digit byte.
fn hex_digit_value(b: u8) -> (r: u8)
    requires
        is_hex_digit(b),
    ensures
        r == hex_val(b),
        r < 16,
{
    if 48 <= b && b <= 57 {
        b - 48
    } else if 97 <= b && b <= 102 {
        b - 87
    } else {
        b - 55
    }
}


/// A blank byte inside a neighbor-dump line: space, tab or carriage
/// return.
pub open spec fn is_blank(b: u8) -> bool {
    b == 32 || b == 9 || b == 13
}

/// First newline at or after `off`.
pub open spec fn line_end(s: Seq<u8>, off: int) -> int
    decreases crate::remaining(s.len() as int, off),
{
    if 0 <= off < s.len() && s[off] != 10 {
        line_end(s, off + 1)
    } else {
        off
    }
}

/// First non-blank byte at or after `off`.
pub open spec fn skip_blanks(s: Seq<u8>, off: int) -> int
    decreases crate::remaining(s.len() as int, off),
{
    if 0 <= off < s.len() && is_blank(s[off]) {
        skip_blanks(s, off + 1)
    } else {
        off
    }
}

/// First blank byte at or after `off`.
pub open spec fn token_end(s: Seq<u8>, off: int) -> int
    decreases crate::remaining(s.len() as int, off),
{
    if 0 <= off < s.len() && !is_blank(s[off]) {
        token_end(s, off + 1)
    } else {
        off
    }
}

/// A line's end never lies before `off`.
pub proof fn lemma_line_end_bounds(s: Seq<u8>, off: int)
    requires
        0 <= off,
    ensures
        off <= line_end(s, off),
        off <= s.len() ==> line_end(s, off) <= s.len(),
    decreases crate::remaining(s.len() as int, off),
{
    if 0 <= off < s.len() && s[off] != 10 {
        lemma_line_end_bounds(s, off + 1);
    }
}

/// Skipping blanks never moves backward, stays in the buffer, and stops
/// at a non-blank byte.
pub proof fn lemma_skip_blanks_bounds(s: Seq<u8>, off: int)
    requires
        0 <= off,
    ensures
        off <= skip_blanks(s, off),
        off <= s.len() ==> skip_blanks(s, off) <= s.len(),
        skip_blanks(s, off) < s.len() ==> !is_blank(s[skip_blanks(s, off)]),
    decreases crate::remaining(s.len() as int, off),
{
    if 0 <= off < s.len() && is_blank(s[off]) {
        lemma_skip_blanks_bounds(s, off + 1);
    }
}

/// A token's end never lies before `off` and stays in the buffer.
pub proof fn lemma_token_end_bounds(s: Seq<u8>, off: int)
    requires
        0 <= off,
    ensures
        off <= token_end(s, off),
        off <= s.len() ==> token_end(s, off) <= s.len(),
        0 <= off < s.len() && !is_blank(s[off]) ==> token_end(s, off) > off,
    decreases crate::remaining(s.len() as int, off),
{
    if 0 <= off < s.len() && !is_blank(s[off]) {
        lemma_token_end_bounds(s, off + 1);
    }
}

/// Bounds of the `n`-th blank-separated field at or after `off`.
pub open spec fn nth_field(s: Seq<u8>, off: int, n: int) -> Option<(int, int)>
    decreases crate::remaining(s.len() as int, off), n,
    via nth_field_decreases
{
    if off < 0 || n < 0 {
        None
    } else {
        let a = skip_blanks(s, off);
        if a >= s.len() {
            None
        } else {
            let b = token_end(s, a);
            if n == 0 {
                Some((a, b))
            } else {
                nth_field(s, b, n - 1)
            }
        }
    }
}

#[via_fn]
proof fn nth_field_decreases(s: Seq<u8>, off: int, n: int) {
    if off >= 0 && n >= 0 {
        lemma_skip_blanks_bounds(s, off);
        let a = skip_blanks(s, off);
        if a < s.len() {
            lemma_token_end_bounds(s, a);
        }
    }
}

/// The flags column that marks a complete ARP entry: `0x2`.
pub open spec fn flags_mark_complete(f: Seq<u8>) -> bool {
    f.len() == 3 && f[0] == 48 && (f[1] == 120 || f[1] == 88) && f[2] == 50
}

/// The neighbor entry one line of the kernel's ARP text dump holds, if
/// one: at least six columns, the flags column `0x2`, the first column
/// a dotted-quad IPv4 address and the fourth a MAC text.
pub open spec fn arp_line_entry_spec(line: Seq<u8>) -> Option<(IpAddress, MacAddress)> {
    match (nth_field(line, 0, 0), nth_field(line, 0, 2), nth_field(line, 0, 3), nth_field(line, 0, 5)) {
        (Some((a0, b0)), Some((a2, b2)), Some((a3, b3)), Some(_)) => {
            if flags_mark_complete(line.subrange(a2, b2)) {
                match (crate::ip::spec_parse_ipv4(line.subrange(a0, b0)), spec_parse_mac(line.subrange(a3, b3))) {
                    (Some(ip), Some(mac)) => Some((ip, mac)),
                    _ => None,
                }
            } else {
                None
            }
        },
        _ => None,
    }
}

/// Walk of the kernel's ARP text dump: the header line is skipped, and
/// every complete entry line contributes a pair, in order.
pub open spec fn proc_arp_walk(
    s: Seq<u8>,
    off: int,
    header: bool,
    acc: Seq<(IpAddress, MacAddress)>,
) -> Seq<(IpAddress, MacAddress)>
    decreases crate::remaining(s.len() as int, off),
    via proc_arp_walk_decreases
{
    if off < 0 || off >= s.len() {
        acc
    } else {
        let e = line_end(s, off);
        if header {
            proc_arp_walk(s, e + 1, false, acc)
        } else {
            match arp_line_entry_spec(s.subrange(off, e)) {
                Some(pair) => proc_arp_walk(s, e + 1, false, acc.push(pair)),
                None => proc_arp_walk(s, e + 1, false, acc),
            }
        }
    }
}

#[via_fn]
proof fn proc_arp_walk_decreases(
    s: Seq<u8>,
    off: int,
    header: bool,
    acc: Seq<(IpAddress, MacAddress)>,
) {
    if 0 <= off < s.len() {
        lemma_line_end_bounds(s, off);
    }
}

/// First non-blank byte at or after `off`, as executable code.
fn skip_blanks_exec(s: &[u8], off: usize) -> (r: usize)
    requires
        off <= s@.len(),
    ensures
        r == skip_blanks(s@, off as int),
        off <= r <= s@.len(),
{
    let len = s.len();
    let mut j = off;
    while j < len && (s[j] == 32 || s[j] == 9 || s[j] == 13)
        invariant
            off <= j <= len,
            len == s@.len(),
            skip_blanks(s@, off as int) == skip_blanks(s@, j as int),
        decreases len - j,
    {
        j = j + 1;
    }
    j
}

/// First blank byte at or after `off`, as executable code.
fn token_end_exec(s: &[u8], off: usize) -> (r: usize)
    requires
        off <= s@.len(),
    ensures
        r == token_end(s@, off as int),
        off <= r <= s@.len(),
{
    let len = s.len();
    let mut j = off;
    while j < len && !(s[j] == 32 || s[j] == 9 || s[j] == 13)
        invariant
            off <= j <= len,
            len == s@.len(),
            token_end(s@, off as int) == token_end(s@, j as int),
        decreases len - j,
    {
        j = j + 1;
    }
    j
}

/// Bounds of the `n`-th blank-separated field, as executable code.
fn field_at(s: &[u8], off: usize, n: usize) -> (r: Option<(usize, usize)>)
    requires
        off <= s@.len(),
    ensures
        match r {
            Some((a, b)) => nth_field(s@, off as int, n as int) == Some((a as int, b as int))
                && off <= a <= b <= s@.len(),
            None => nth_field(s@, off as int, n as int) is None,
        },
    decreases n,
{
    let a = skip_blanks_exec(s, off);
    if a >= s.len() {
        return None;
    }
    let b = token_end_exec(s, a);
    if n == 0 {
        Some((a, b))
    } else {
        field_at(s, b, n - 1)
    }
}

/// The neighbor entry one dump line holds, as executable code.
fn arp_line_entry(line: &[u8]) -> (r: Option<(IpAddress, MacAddress)>)
    ensures
        r == arp_line_entry_spec(line@),
{
    let f0 = field_at(line, 0, 0);
    let f2 = field_at(line, 0, 2);
    let f3 = field_at(line, 0, 3);
    let f5 = field_at(line, 0, 5);
    match (f0, f2, f3, f5) {
        (Some((a0, b0)), Some((a2, b2)), Some((a3, b3)), Some(_)) => {
            let flags = &line[a2..b2];
            proof {
                assert(flags@ == line@.subrange(a2 as int, b2 as int));
            }
            let complete = flags.len() == 3 && flags[0] == 48 && (flags[1] == 120 || flags[1]
                == 88) && flags[2] == 50;
            if !complete {
                return None;
            }
            let ip_field = &line[a0..b0];
            let mac_field = &line[a3..b3];
            proof {
                assert(ip_field@ == line@.subrange(a0 as int, b0 as int));
                assert(mac_field@ == line@.subrange(a3 as int, b3 as int));
            }
            match (crate::ip::parse_ipv4_text(ip_field), parse_mac_bytes(mac_field)) {
                (Some(ip), Some(mac)) => Some((ip, mac)),
                _ => None,
            }
        },
        _ => None,
    }
}

/// Decode the kernel's ARP text dump — the fallback when the netlink
/// dump yields nothing — into its complete entries, in order.
pub fn parse_proc_arp(buf: &[u8]) -> (r: Vec<(IpAddress, MacAddress)>)
    requires
        buf@.len() <= usize::MAX - 2,
    ensures
        r@ == proc_arp_walk(buf@, 0, true, Seq::empty()),
{
    let len = buf.len();
    let mut off: usize = 0;
    let mut header = true;
    let mut out: Vec<(IpAddress, MacAddress)> = Vec::new();
    loop
        invariant
            len == buf@.len(),
            len <= usize::MAX - 2,
            off <= len + 1,
            proc_arp_walk(buf@, 0, true, Seq::empty()) == proc_arp_walk(
                buf@,
                off as int,
                header,
                out@,
            ),
        decreases crate::remaining(len as int, off as int),
    {
        if off >= len {
            return out;
        }
        // Find the end of this line.
        let mut e = off;
        while e < len && buf[e] != 10
            invariant
                off <= e <= len,
                len == buf@.len(),
                line_end(buf@, off as int) == line_end(buf@, e as int),
            decreases len - e,
        {
            e = e + 1;
        }
        if header {
            header = false;
        } else {
            let line = &buf[off..e];
            proof {
                assert(line@ == buf@.subrange(off as int, e as int));
            }
            match arp_line_entry(line) {
                Some(pair) => {
                    let ghost prev = out@;
                    out.push(pair);
                    proof {
                        assert(out@.drop_last() =~= prev);
                    }
                },
                None => (),
            }
        }
        off = e + 1;
    }
}

/// Register a batch of decoded entries, later entries replacing earlier
/// ones for the same address, as the platform decoders produce them.
pub fn collect_neighbors(table: &mut NeighborTable, pairs: &Vec<(IpAddress, MacAddress)>)
    ensures
        forall|k: IpAddress|
            #[trigger] final(table).spec_get(k) == match neigh_lookup(pairs@, k) {
                Some(m) => Some(m),
                None => old(table).spec_get(k),
            },
{
    let n = pairs.len();
    let mut i: usize = 0;
    while i < n
        invariant
            i <= n,
            n == pairs@.len(),
            forall|k: IpAddress|
                #[trigger] table.spec_get(k) == match neigh_lookup(pairs@.take(i as int), k) {
                    Some(m) => Some(m),
                    None => old(table).spec_get(k),
                },
        decreases n - i,
    {
        proof {
            assert(pairs@.take(i + 1).drop_last() =~= pairs@.take(i as int));
            assert(pairs@.take(i + 1).last() == pairs@[i as int]);
        }
        let pair = pairs[i];
        table.insert(pair.0, pair.1);
        i = i + 1;
    }
    proof {
        assert(pairs@.take(n as int) =~= pairs@);
    }
}

} // verus!
