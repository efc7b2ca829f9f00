//! ICMP and ICMPv6 packet codec.
//!
//! Serializes Echo messages and parses just enough of a received buffer to
//! identify Echo Replies and Destination-Unreachable errors. IPv4 receive
//! buffers begin with the full IPv4 header; for IPv6 the kernel strips the
//! IP header, so those buffers begin at the ICMPv6 header.

use vstd::prelude::*;

use crate::error::ProbeError;
use crate::ip::IpAddress;

verus! {

/// ICMPv4 message type of an Echo Request.
pub const ICMPV4_ECHO_REQUEST: u8 = 8;

/// ICMPv4 message type of an Echo Reply.
pub const ICMPV4_ECHO_REPLY: u8 = 0;

/// ICMPv4 message type of Destination Unreachable.
pub const ICMPV4_DEST_UNREACHABLE: u8 = 3;

/// ICMPv6 message type of an Echo Request.
pub const ICMPV6_ECHO_REQUEST: u8 = 128;

/// ICMPv6 message type of an Echo Reply.
pub const ICMPV6_ECHO_REPLY: u8 = 129;

/// ICMPv6 message type of Destination Unreachable.
pub const ICMPV6_DEST_UNREACHABLE: u8 = 1;

/// IPv4 protocol number of ICMP.
pub const IP_PROTO_ICMP: u8 = 1;

/// Largest buffer the checksum routine accepts; an IP packet cannot be
/// longer than 65535 bytes.
pub const MAX_PACKET_LEN: usize = 65535;

/// High byte of a 16-bit value.
pub open spec fn hi(x: u16) -> u8 {
    (x / 256) as u8
}

/// Low byte of a 16-bit value.
pub open spec fn lo(x: u16) -> u8 {
    (x % 256) as u8
}

/// The 16-bit big-endian word at byte offset `i`.
pub open spec fn word_at(b: Seq<u8>, i: int) -> u16 {
    (b[i] as int * 256 + b[i + 1] as int) as u16
}

/// Sum of the first `n` bytes interpreted as big-endian 16-bit words:
/// bytes at even offsets weigh 256, bytes at odd offsets weigh 1. An odd
/// trailing byte is thereby padded with a zero byte, as the internet
/// checksum demands.
pub open spec fn sum16_prefix(b: Seq<u8>, n: int) -> int
    decreases n,
{
    if n <= 0 {
        0
    } else {
        sum16_prefix(b, n - 1) + (if (n - 1) % 2 == 0 {
            b[n - 1] as int * 256
        } else {
            b[n - 1] as int
        })
    }
}

/// One's-complement folding: add the carries above 16 bits back in until
/// the value fits in 16 bits.
pub open spec fn fold16(s: int) -> int
    recommends
        s >= 0,
    decreases s,
{
    if s < 0x10000 {
        s
    } else {
        fold16(s % 0x10000 + s / 0x10000)
    }
}

/// The internet checksum (RFC 1071) of a byte sequence: the one's
/// complement of the one's-complement sum of its big-endian 16-bit words.
pub open spec fn internet_checksum(b: Seq<u8>) -> u16 {
    (0xffff - fold16(sum16_prefix(b, b.len() as int))) as u16
}

/// The word sum of a prefix is non-negative and bounded by the number of
/// bytes counted, each weighing at most 255 * 256.
proof fn lemma_sum16_prefix_bounds(b: Seq<u8>, n: int)
    requires
        0 <= n,
    ensures
        0 <= sum16_prefix(b, n) <= n * 0xff00,
    decreases n,
{
    if n > 0 {
        lemma_sum16_prefix_bounds(b, n - 1);
    }
}

/// Folding a non-negative value lands in the 16-bit range.
proof fn lemma_fold16_bounds(s: int)
    requires
        s >= 0,
    ensures
        0 <= fold16(s) < 0x10000,
    decreases s,
{
    if s >= 0x10000 {
        lemma_fold16_bounds(s % 0x10000 + s / 0x10000);
    }
}

/// Compute the internet checksum of a buffer.
pub fn checksum(data: &[u8]) -> (r: u16)
    requires
        data@.len() <= MAX_PACKET_LEN,
    ensures
        r == internet_checksum(data@),
{
    let n = data.len();
    let mut acc: u64 = 0;
    let mut i: usize = 0;
    proof {
        lemma_sum16_prefix_bounds(data@, n as int);
    }
    while i < n
        invariant
            i <= n,
            n == data@.len() <= MAX_PACKET_LEN,
            acc == sum16_prefix(data@, i as int),
            acc <= i * 0xff00,
        decreases n - i,
    {
        proof {
            lemma_sum16_prefix_bounds(data@, i + 1);
        }
        let byte = data[i];
        if i % 2 == 0 {
            acc = acc + (byte as u64) * 256;
        } else {
            acc = acc + (byte as u64);
        }
        i = i + 1;
    }
    let ghost total = sum16_prefix(data@, n as int);
    let mut sum: u64 = acc;
    while sum >= 0x10000
        invariant
            sum >= 0,
            fold16(sum as int) == fold16(total),
        decreases sum,
    {
        sum = sum % 0x10000 + sum / 0x10000;
    }
    proof {
        lemma_fold16_bounds(total);
    }
    let folded: u16 = sum as u16;
    0xffffu16 - folded
}

/// The bytes of an ICMPv4 message with the echo layout (type, code 0,
/// checksum, identifier, sequence, payload) before the checksum is filled
/// in.
pub open spec fn icmp_v4_zero_ck(typ: u8, id: u16, seq: u16, payload: Seq<u8>) -> Seq<u8> {
    seq![typ, 0u8, 0u8, 0u8, hi(id), lo(id), hi(seq), lo(seq)] + payload
}

/// The bytes of a finished ICMPv4 echo-layout message: the checksum field
/// holds the internet checksum of the same bytes with a zero checksum.
pub open spec fn icmp_v4_bytes(typ: u8, id: u16, seq: u16, payload: Seq<u8>) -> Seq<u8> {
    let ck = internet_checksum(icmp_v4_zero_ck(typ, id, seq, payload));
    seq![typ, 0u8, hi(ck), lo(ck), hi(id), lo(id), hi(seq), lo(seq)] + payload
}

/// Build an ICMPv4 message with the echo layout.
fn build_icmp_v4(typ: u8, id: u16, seq: u16, payload: &[u8]) -> (r: Vec<u8>)
    requires
        payload@.len() <= MAX_PACKET_LEN - 8,
    ensures
        r@ == icmp_v4_bytes(typ, id, seq, payload@),
{
    let mut pkt: Vec<u8> = Vec::new();
    pkt.push(typ);
    pkt.push(0u8);
    pkt.push(0u8);
    pkt.push(0u8);
    pkt.push((id / 256) as u8);
    pkt.push((id % 256) as u8);
    pkt.push((seq / 256) as u8);
    pkt.push((seq % 256) as u8);
    let mut k: usize = 0;
    while k < payload.len()
        invariant
            k <= payload@.len(),
            payload@.len() <= MAX_PACKET_LEN - 8,
            pkt@ == icmp_v4_zero_ck(typ, id, seq, payload@.take(k as int)),
        decreases payload@.len() - k,
    {
        pkt.push(payload[k]);
        proof {
            assert(pkt@ =~= icmp_v4_zero_ck(typ, id, seq, payload@.take(k + 1)));
        }
        k = k + 1;
    }
    proof {
        assert(payload@.take(payload@.len() as int) =~= payload@);
    }
    let ck = checksum(pkt.as_slice());
    pkt.set(2, (ck / 256) as u8);
    pkt.set(3, (ck % 256) as u8);
    proof {
        assert(pkt@ =~= icmp_v4_bytes(typ, id, seq, payload@));
    }
    pkt
}

/// Build an ICMPv4 Echo Request (type 8, code 0) with the given
/// identifier, sequence number and payload.
pub fn build_echo_v4(id: u16, seq: u16, payload: &[u8]) -> (r: Vec<u8>)
    requires
        payload@.len() <= MAX_PACKET_LEN - 8,
    ensures
        r@ == icmp_v4_bytes(ICMPV4_ECHO_REQUEST, id, seq, payload@),
{
    build_icmp_v4(ICMPV4_ECHO_REQUEST, id, seq, payload)
}

/// Build an ICMPv4 Echo Reply (type 0, code 0); what a target answers an
/// Echo Request with.
pub fn build_echo_reply_v4(id: u16, seq: u16, payload: &[u8]) -> (r: Vec<u8>)
    requires
        payload@.len() <= MAX_PACKET_LEN - 8,
    ensures
        r@ == icmp_v4_bytes(ICMPV4_ECHO_REPLY, id, seq, payload@),
{
    build_icmp_v4(ICMPV4_ECHO_REPLY, id, seq, payload)
}

/// The IPv6 pseudo-header over which the ICMPv6 checksum is computed:
/// source, destination, the 32-bit upper-layer length, three zero bytes
/// and the next-header value 58.
pub open spec fn v6_pseudo_header(src: Seq<u8>, dst: Seq<u8>, len: u16) -> Seq<u8> {
    src + dst + seq![0u8, 0u8, hi(len), lo(len), 0u8, 0u8, 0u8, 58u8]
}

/// The bytes of an ICMPv6 message with the echo layout and a zero
/// checksum field.
pub open spec fn icmp_v6_zero_ck(typ: u8, id: u16, seq: u16, payload: Seq<u8>) -> Seq<u8> {
    seq![typ, 0u8, 0u8, 0u8, hi(id), lo(id), hi(seq), lo(seq)] + payload
}

/// The checksum of an ICMPv6 echo-layout message between the given
/// addresses.
pub open spec fn icmp_v6_checksum(typ: u8, src: Seq<u8>, dst: Seq<u8>, id: u16, seq: u16, payload: Seq<u8>) -> u16 {
    let pkt = icmp_v6_zero_ck(typ, id, seq, payload);
    internet_checksum(v6_pseudo_header(src, dst, (8 + payload.len()) as u16) + pkt)
}

/// The bytes of a finished ICMPv6 echo-layout message from `src` to
/// `dst`: the checksum covers the IPv6 pseudo-header.
pub open spec fn icmp_v6_bytes(typ: u8, src: Seq<u8>, dst: Seq<u8>, id: u16, seq: u16, payload: Seq<u8>) -> Seq<u8> {
    let ck = icmp_v6_checksum(typ, src, dst, id, seq, payload);
    seq![typ, 0u8, hi(ck), lo(ck), hi(id), lo(id), hi(seq), lo(seq)] + payload
}

/// Copy a sixteen-octet address onto the end of a byte vector.
fn push_octets_16(out: &mut Vec<u8>, a: &[u8; 16])
    ensures
        final(out)@ == old(out)@ + a@,
{
    broadcast use vstd::array::group_array_axioms;

    let mut k: usize = 0;
    while k < 16
        invariant
            k <= 16,
            out@ == old(out)@ + a@.take(k as int),
        decreases 16 - k,
    {
        out.push(a[k]);
        proof {
            assert(out@ =~= old(out)@ + a@.take(k + 1));
        }
        k = k + 1;
    }
    proof {
        assert(old(out)@ + a@.take(16) =~= old(out)@ + a@);
    }
}

/// Build an ICMPv6 message with the echo layout; the checksum includes
/// the pseudo-header of the given source and destination addresses.
fn build_icmp_v6(typ: u8, src: &[u8; 16], dst: &[u8; 16], id: u16, seq: u16, payload: &[u8]) -> (r: Vec<u8>)
    requires
        payload@.len() <= MAX_PACKET_LEN - 48,
    ensures
        r@ == icmp_v6_bytes(typ, src@, dst@, id, seq, payload@),
{
    let mut pkt: Vec<u8> = Vec::new();
    pkt.push(typ);
    pkt.push(0u8);
    pkt.push(0u8);
    pkt.push(0u8);
    pkt.push((id / 256) as u8);
    pkt.push((id % 256) as u8);
    pkt.push((seq / 256) as u8);
    pkt.push((seq % 256) as u8);
    let mut k: usize = 0;
    while k < payload.len()
        invariant
            k <= payload@.len(),
            payload@.len() <= MAX_PACKET_LEN - 48,
            pkt@ == icmp_v6_zero_ck(typ, id, seq, payload@.take(k as int)),
        decreases payload@.len() - k,
    {
        pkt.push(payload[k]);
        proof {
            assert(pkt@ =~= icmp_v6_zero_ck(typ, id, seq, payload@.take(k + 1)));
        }
        k = k + 1;
    }
    proof {
        assert(payload@.take(payload@.len() as int) =~= payload@);
    }

    // Assemble pseudo-header + message, checksum it, then patch the field.
    let ulen: u16 = (8 + payload.len()) as u16;
    let mut buf: Vec<u8> = Vec::new();
    push_octets_16(&mut buf, src);
    push_octets_16(&mut buf, dst);
    buf.push(0u8);
    buf.push(0u8);
    buf.push((ulen / 256) as u8);
    buf.push((ulen % 256) as u8);
    buf.push(0u8);
    buf.push(0u8);
    buf.push(0u8);
    buf.push(58u8);
    proof {
        assert(buf@ =~= v6_pseudo_header(src@, dst@, ulen));
    }
    let mut j: usize = 0;
    let pkt_len = pkt.len();
    while j < pkt_len
        invariant
            j <= pkt_len,
            pkt_len == pkt@.len(),
            pkt@.len() <= MAX_PACKET_LEN - 40,
            buf@ == v6_pseudo_header(src@, dst@, ulen) + pkt@.take(j as int),
        decreases pkt_len - j,
    {
        let b = pkt[j];
        buf.push(b);
        proof {
            assert(buf@ =~= v6_pseudo_header(src@, dst@, ulen) + pkt@.take(j + 1));
        }
        j = j + 1;
    }
    proof {
        assert(v6_pseudo_header(src@, dst@, ulen) + pkt@.take(pkt@.len() as int)
            =~= v6_pseudo_header(src@, dst@, ulen) + pkt@);
    }
    let ck = checksum(buf.as_slice());
    pkt.set(2, (ck / 256) as u8);
    pkt.set(3, (ck % 256) as u8);
    proof {
        assert(pkt@ =~= icmp_v6_bytes(typ, src@, dst@, id, seq, payload@));
    }
    pkt
}

/// Build an ICMPv6 Echo Request (type 128, code 0).
pub fn build_echo_v6(src: &[u8; 16], dst: &[u8; 16], id: u16, seq: u16, payload: &[u8]) -> (r: Vec<u8>)
    requires
        payload@.len() <= MAX_PACKET_LEN - 48,
    ensures
        r@ == icmp_v6_bytes(ICMPV6_ECHO_REQUEST, src@, dst@, id, seq, payload@),
{
    build_icmp_v6(ICMPV6_ECHO_REQUEST, src, dst, id, seq, payload)
}

/// Build an ICMPv6 Echo Reply (type 129, code 0).
pub fn build_echo_reply_v6(src: &[u8; 16], dst: &[u8; 16], id: u16, seq: u16, payload: &[u8]) -> (r: Vec<u8>)
    requires
        payload@.len() <= MAX_PACKET_LEN - 48,
    ensures
        r@ == icmp_v6_bytes(ICMPV6_ECHO_REPLY, src@, dst@, id, seq, payload@),
{
    build_icmp_v6(ICMPV6_ECHO_REPLY, src, dst, id, seq, payload)
}

/// Build an ICMP Echo Request toward `dst`, sourced at `src`. The
/// addresses must share a family; a mixed pair is rejected.
pub fn build_echo(src: &IpAddress, dst: &IpAddress, id: u16, seq: u16, payload: &[u8]) -> (r: Result<
    Vec<u8>,
    ProbeError,
>)
    requires
        payload@.len() <= MAX_PACKET_LEN - 48,
    ensures
        match r {
            Ok(pkt) => match (src, dst) {
                (IpAddress::V4(_), IpAddress::V4(_)) => pkt@ == icmp_v4_bytes(
                    ICMPV4_ECHO_REQUEST,
                    id,
                    seq,
                    payload@,
                ),
                (IpAddress::V6(s), IpAddress::V6(d)) => pkt@ == icmp_v6_bytes(
                    ICMPV6_ECHO_REQUEST,
                    s@,
                    d@,
                    id,
                    seq,
                    payload@,
                ),
                _ => false,
            },
            Err(e) => !crate::ip::same_family(*src, *dst) && e is InvalidArgument,
        },
        r is Ok <==> crate::ip::same_family(*src, *dst),
{
    match (src, dst) {
        (IpAddress::V4(_), IpAddress::V4(_)) => Ok(build_echo_v4(id, seq, payload)),
        (IpAddress::V6(s), IpAddress::V6(d)) => Ok(build_echo_v6(s, d, id, seq, payload)),
        _ => Err(
            ProbeError::InvalidArgument(
                String::from_str("source and destination IP version mismatch"),
            ),
        ),
    }
}

/// Length in bytes that an IPv4 header's first byte claims for the header.
pub open spec fn ipv4_header_len(b0: u8) -> int {
    4 * ((b0 as int) % 16)
}

/// The buffer begins with a well-formed IPv4 header carrying ICMP, and is
/// long enough to hold an eight-byte ICMP header behind it.
pub open spec fn ipv4_wraps_icmp(b: Seq<u8>) -> bool {
    &&& b.len() >= 20
    &&& (b[0] as int) / 16 == 4
    &&& (b[0] as int) % 16 >= 5
    &&& b.len() >= ipv4_header_len(b[0]) + 8
    &&& b[9] == IP_PROTO_ICMP
}

/// Identifier and sequence number of the ICMPv4 Echo Reply a buffer
/// holds, if it holds one. The buffer must begin with the full IPv4
/// header.
pub open spec fn parse_echo_reply_v4_spec(b: Seq<u8>) -> Option<(u16, u16)> {
    if ipv4_wraps_icmp(b) && b[ipv4_header_len(b[0])] == ICMPV4_ECHO_REPLY {
        Some((word_at(b, ipv4_header_len(b[0]) + 4), word_at(b, ipv4_header_len(b[0]) + 6)))
    } else {
        None
    }
}

/// Extract identifier and sequence number of an ICMPv4 Echo Reply from a
/// buffer that begins with the full IPv4 header.
pub fn parse_echo_reply_v4(buf: &[u8]) -> (r: Option<(u16, u16)>)
    ensures
        r == parse_echo_reply_v4_spec(buf@),
{
    if buf.len() < 20 {
        return None;
    }
    let b0 = buf[0];
    if b0 / 16 != 4 {
        return None;
    }
    let ihl = (b0 % 16) as usize;
    if ihl < 5 {
        return None;
    }
    let hdr: usize = 4 * ihl;
    if buf.len() < hdr + 8 {
        return None;
    }
    if buf[9] != IP_PROTO_ICMP {
        return None;
    }
    if buf[hdr] != ICMPV4_ECHO_REPLY {
        return None;
    }
    let id: u16 = (buf[hdr + 4] as u16) * 256 + (buf[hdr + 5] as u16);
    let sq: u16 = (buf[hdr + 6] as u16) * 256 + (buf[hdr + 7] as u16);
    Some((id, sq))
}

/// Identifier and sequence number of the ICMPv6 Echo Reply a buffer
/// holds, if it holds one. The kernel strips the IPv6 header on receive,
/// so the buffer begins at the ICMPv6 header.
pub open spec fn parse_echo_reply_v6_spec(b: Seq<u8>) -> Option<(u16, u16)> {
    if b.len() >= 8 && b[0] == ICMPV6_ECHO_REPLY {
        Some((word_at(b, 4), word_at(b, 6)))
    } else {
        None
    }
}

/// Extract identifier and sequence number of an ICMPv6 Echo Reply from a
/// buffer that begins at the ICMPv6 header.
pub fn parse_echo_reply_v6(buf: &[u8]) -> (r: Option<(u16, u16)>)
    ensures
        r == parse_echo_reply_v6_spec(buf@),
{
    if buf.len() < 8 {
        return None;
    }
    if buf[0] != ICMPV6_ECHO_REPLY {
        return None;
    }
    let id: u16 = (buf[4] as u16) * 256 + (buf[5] as u16);
    let sq: u16 = (buf[6] as u16) * 256 + (buf[7] as u16);
    Some((id, sq))
}

/// The buffer holds an ICMPv4 Destination Unreachable, any code, behind
/// its IPv4 header.
pub open spec fn is_destination_unreachable_v4_spec(b: Seq<u8>) -> bool {
    ipv4_wraps_icmp(b) && b[ipv4_header_len(b[0])] == ICMPV4_DEST_UNREACHABLE
}

/// Decide whether a buffer that begins with an IPv4 header holds an ICMP
/// Destination Unreachable message, regardless of its code.
pub fn is_destination_unreachable_v4(buf: &[u8]) -> (r: bool)
    ensures
        r == is_destination_unreachable_v4_spec(buf@),
{
    if buf.len() < 20 {
        return false;
    }
    let b0 = buf[0];
    if b0 / 16 != 4 {
        return false;
    }
    let ihl = (b0 % 16) as usize;
    if ihl < 5 {
        return false;
    }
    let hdr: usize = 4 * ihl;
    if buf.len() < hdr + 8 {
        return false;
    }
    if buf[9] != IP_PROTO_ICMP {
        return false;
    }
    buf[hdr] == ICMPV4_DEST_UNREACHABLE
}

/// The buffer holds an ICMPv6 Destination Unreachable, any code.
pub open spec fn is_destination_unreachable_v6_spec(b: Seq<u8>) -> bool {
    b.len() >= 8 && b[0] == ICMPV6_DEST_UNREACHABLE
}

/// Decide whether a buffer that begins at the ICMPv6 header holds a
/// Destination Unreachable message, regardless of its code.
pub fn is_destination_unreachable_v6(buf: &[u8]) -> (r: bool)
    ensures
        r == is_destination_unreachable_v6_spec(buf@),
{
    buf.len() >= 8 && buf[0] == ICMPV6_DEST_UNREACHABLE
}

/// The buffer holds an Echo Reply of the destination's family.
pub open spec fn is_echo_reply_spec(dst: IpAddress, b: Seq<u8>) -> bool {
    match dst {
        IpAddress::V4(_) => parse_echo_reply_v4_spec(b) is Some,
        IpAddress::V6(_) => parse_echo_reply_v6_spec(b) is Some,
    }
}

/// Decide whether a received buffer is an Echo Reply for a probe toward
/// `dst`, parsing it by the destination's family.
pub fn is_echo_reply(dst: &IpAddress, buf: &[u8]) -> (r: bool)
    ensures
        r == is_echo_reply_spec(*dst, buf@),
{
    match dst {
        IpAddress::V4(_) => parse_echo_reply_v4(buf).is_some(),
        IpAddress::V6(_) => parse_echo_reply_v6(buf).is_some(),
    }
}

/// The buffer holds a Destination Unreachable of the destination's family.
pub open spec fn is_destination_unreachable_spec(dst: IpAddress, b: Seq<u8>) -> bool {
    match dst {
        IpAddress::V4(_) => is_destination_unreachable_v4_spec(b),
        IpAddress::V6(_) => is_destination_unreachable_v6_spec(b),
    }
}

/// Decide whether a received buffer is a Destination Unreachable for a
/// probe toward `dst`, parsing it by the destination's family.
pub fn is_destination_unreachable(dst: &IpAddress, buf: &[u8]) -> (r: bool)
    ensures
        r == is_destination_unreachable_spec(*dst, buf@),
{
    match dst {
        IpAddress::V4(_) => is_destination_unreachable_v4(buf),
        IpAddress::V6(_) => is_destination_unreachable_v6(buf),
    }
}

/// Round trip, IPv4: an Echo Reply built by this codec and wrapped in any
/// well-formed IPv4 header that carries ICMP parses back to the same
/// identifier and sequence number.
pub proof fn lemma_echo_round_trip_v4(hdr: Seq<u8>, id: u16, seq: u16, payload: Seq<u8>)
    requires
        hdr.len() == ipv4_header_len(hdr[0]),
        hdr.len() >= 20,
        (hdr[0] as int) / 16 == 4,
        hdr[9] == IP_PROTO_ICMP,
    ensures
        parse_echo_reply_v4_spec(hdr + icmp_v4_bytes(ICMPV4_ECHO_REPLY, id, seq, payload)) == Some(
            (id, seq),
        ),
{
    let pkt = icmp_v4_bytes(ICMPV4_ECHO_REPLY, id, seq, payload);
    let b = hdr + pkt;
    let h = hdr.len() as int;
    assert(b[0] == hdr[0]);
    assert(b[9] == hdr[9]);
    assert(ipv4_wraps_icmp(b));
    assert(b[h] == ICMPV4_ECHO_REPLY);
    assert(b[h + 4] == hi(id) && b[h + 5] == lo(id));
    assert(b[h + 6] == hi(seq) && b[h + 7] == lo(seq));
    assert(word_at(b, h + 4) == id);
    assert(word_at(b, h + 6) == seq);
}

/// An Echo Request does not parse as an Echo Reply: the type byte is
/// checked.
pub proof fn lemma_request_is_not_reply_v4(hdr: Seq<u8>, id: u16, seq: u16, payload: Seq<u8>)
    requires
        hdr.len() == ipv4_header_len(hdr[0]),
        hdr.len() >= 20,
        (hdr[0] as int) / 16 == 4,
        hdr[9] == IP_PROTO_ICMP,
    ensures
        parse_echo_reply_v4_spec(hdr + icmp_v4_bytes(ICMPV4_ECHO_REQUEST, id, seq, payload))
            is None,
{
    let pkt = icmp_v4_bytes(ICMPV4_ECHO_REQUEST, id, seq, payload);
    let b = hdr + pkt;
    let h = hdr.len() as int;
    assert(b[h] == ICMPV4_ECHO_REQUEST);
}

/// Round trip, IPv6: an Echo Reply built by this codec parses back to the
/// same identifier and sequence number; the kernel hands the ICMPv6 bytes
/// over without the IP header.
pub proof fn lemma_echo_round_trip_v6(src: Seq<u8>, dst: Seq<u8>, id: u16, seq: u16, payload: Seq<u8>)
    ensures
        parse_echo_reply_v6_spec(icmp_v6_bytes(ICMPV6_ECHO_REPLY, src, dst, id, seq, payload))
            == Some((id, seq)),
{
    let b = icmp_v6_bytes(ICMPV6_ECHO_REPLY, src, dst, id, seq, payload);
    assert(b[0] == ICMPV6_ECHO_REPLY);
    assert(b[4] == hi(id) && b[5] == lo(id));
    assert(b[6] == hi(seq) && b[7] == lo(seq));
    assert(word_at(b, 4) == id);
    assert(word_at(b, 6) == seq);
}

} // verus!
