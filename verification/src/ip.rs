//! Plain models of IP and MAC addresses.
//!
//! Probes work on resolved addresses only, so an address is data: four or
//! sixteen octets. The socket layer around the library converts to and from
//! the operating system's own representations.

use vstd::prelude::*;

verus! {

/// Address family of a target.
#[derive(Clone, Copy, Debug, PartialEq, Eq, Structural)]
pub enum AddressFamily {
    IPv4,
    IPv6,
}

/// Two addresses share a family when both are IPv4 or both are IPv6.
pub open spec fn same_family(a: IpAddress, b: IpAddress) -> bool {
    (a is V4) == (b is V4)
}

/// An IP address as plain octets, in network order.
#[derive(Clone, Copy, Debug, PartialEq, Eq, Hash)]
pub enum IpAddress {
    V4([u8; 4]),
    V6([u8; 16]),
}

impl IpAddress {
    /// True when the address is IPv4.
    pub fn is_ipv4(&self) -> (r: bool)
        ensures
            r == self is V4,
    {
        matches!(self, IpAddress::V4(_))
    }

    /// True when the address is IPv6.
    pub fn is_ipv6(&self) -> (r: bool)
        ensures
            r == self is V6,
    {
        matches!(self, IpAddress::V6(_))
    }

    /// Family of the address.
    pub fn family(&self) -> (r: AddressFamily)
        ensures
            r == AddressFamily::IPv4 <==> self is V4,
            r == AddressFamily::IPv6 <==> self is V6,
    {
        match self {
            IpAddress::V4(_) => AddressFamily::IPv4,
            IpAddress::V6(_) => AddressFamily::IPv6,
        }
    }

    /// The all-zero IPv4 address.
    pub fn v4_unspecified() -> (r: IpAddress)
        ensures
            r == IpAddress::V4([0u8, 0u8, 0u8, 0u8]),
    {
        IpAddress::V4([0u8, 0u8, 0u8, 0u8])
    }

    /// The all-zero IPv6 address.
    pub fn v6_unspecified() -> (r: IpAddress)
        ensures
            r is V6,
    {
        IpAddress::V6([0u8, 0u8, 0u8, 0u8, 0u8, 0u8, 0u8, 0u8, 0u8, 0u8, 0u8, 0u8, 0u8, 0u8, 0u8, 0u8])
    }

    /// Decide equality of two addresses.
    pub fn same(&self, other: &IpAddress) -> (r: bool)
        ensures
            r == (*self == *other),
    {
        broadcast use vstd::array::group_array_axioms;

        match (self, other) {
            (IpAddress::V4(a), IpAddress::V4(b)) => {
                let r = eq_octets_4(a, b);
                proof {
                    if a@ =~= b@ {
                        assert(*a == *b);
                    }
                }
                r
            }
            (IpAddress::V6(a), IpAddress::V6(b)) => {
                let r = eq_octets_16(a, b);
                proof {
                    if a@ =~= b@ {
                        assert(*a == *b);
                    }
                }
                r
            }
            _ => false,
        }
    }
}

/// Decide equality of two four-octet arrays.
fn eq_octets_4(a: &[u8; 4], b: &[u8; 4]) -> (r: bool)
    ensures
        r == (a@ =~= b@),
{
    broadcast use vstd::array::group_array_axioms;

    let mut i: usize = 0;
    while i < 4
        invariant
            i <= 4,
            forall|j: int| 0 <= j < i ==> a@[j] == b@[j],
        decreases 4 - i,
    {
        if a[i] != b[i] {
            return false;
        }
        i = i + 1;
    }
    true
}

/// Decide equality of two sixteen-octet arrays.
fn eq_octets_16(a: &[u8; 16], b: &[u8; 16]) -> (r: bool)
    ensures
        r == (a@ =~= b@),
{
    broadcast use vstd::array::group_array_axioms;

    let mut i: usize = 0;
    while i < 16
        invariant
            i <= 16,
            forall|j: int| 0 <= j < i ==> a@[j] == b@[j],
        decreases 16 - i,
    {
        if a[i] != b[i] {
            return false;
        }
        i = i + 1;
    }
    true
}

/// A link-layer (MAC) address: six octets.
#[derive(Clone, Copy, Debug, PartialEq, Eq, Hash)]
pub struct MacAddress {
    pub octets: [u8; 6],
}

impl MacAddress {
    /// Build a MAC address from its six octets.
    pub fn from_octets(octets: [u8; 6]) -> (r: MacAddress)
        ensures
            r.octets == octets,
    {
        MacAddress { octets }
    }

    /// The all-zero MAC address.
    pub fn zero() -> (r: MacAddress)
        ensures
            r.octets == [0u8, 0u8, 0u8, 0u8, 0u8, 0u8],
    {
        MacAddress { octets: [0u8, 0u8, 0u8, 0u8, 0u8, 0u8] }
    }
}

/// An address with a port: the plain form of a socket address.
#[derive(Clone, Copy, Debug, PartialEq, Eq)]
pub struct SockAddr {
    pub ip: IpAddress,
    pub port: u16,
}

impl SockAddr {
    /// Pair an address with a port.
    pub fn new(ip: IpAddress, port: u16) -> (r: SockAddr)
        ensures
            r.ip == ip,
            r.port == port,
    {
        SockAddr { ip, port }
    }
}


/// A decimal digit byte.
pub open spec fn is_dec_digit(b: u8) -> bool {
    48 <= b <= 57
}

/// Value of a decimal digit byte.
pub open spec fn dec_val(b: u8) -> int {
    b - 48
}

/// Walk of a dotted-quad IPv4 text: four decimal groups of one to three
/// digits, separated by dots, each at most 255 and without leading
/// zeros.
pub open spec fn ipv4_text_walk(s: Seq<u8>, off: int, acc: Seq<u8>) -> Option<IpAddress>
    decreases crate::remaining(s.len() as int, off),
{
    if off >= s.len() || !is_dec_digit(s[off]) {
        None
    } else {
        let (v, glen): (int, int) = if off + 1 < s.len() && is_dec_digit(s[off + 1]) {
            if s[off] == 48 {
                (-1, 1)  // leading zero
            } else if off + 2 < s.len() && is_dec_digit(s[off + 2]) {
                if off + 3 < s.len() && is_dec_digit(s[off + 3]) {
                    (-1, 1)  // four or more digits
                } else {
                    (100 * dec_val(s[off]) + 10 * dec_val(s[off + 1]) + dec_val(s[off + 2]), 3)
                }
            } else {
                (10 * dec_val(s[off]) + dec_val(s[off + 1]), 2)
            }
        } else {
            (dec_val(s[off]), 1)
        };
        if v < 0 || v > 255 {
            None
        } else {
            let end = off + glen;
            if end == s.len() {
                if acc.len() == 3 {
                    Some(IpAddress::V4([acc[0], acc[1], acc[2], v as u8]))
                } else {
                    None
                }
            } else if s[end] == 46 && acc.len() < 3 {
                ipv4_text_walk(s, end + 1, acc.push(v as u8))
            } else {
                None
            }
        }
    }
}

/// The IPv4 address a byte string spells in dotted-quad form, if it
/// spells one.
pub open spec fn spec_parse_ipv4(s: Seq<u8>) -> Option<IpAddress> {
    ipv4_text_walk(s, 0, Seq::empty())
}

/// Parse a dotted-quad IPv4 text such as a neighbor-table dump prints.
pub fn parse_ipv4_text(s: &[u8]) -> (r: Option<IpAddress>)
    ensures
        r == spec_parse_ipv4(s@),
{
    broadcast use vstd::array::group_array_axioms;

    let len = s.len();
    let mut off: usize = 0;
    let mut acc: Vec<u8> = Vec::new();
    loop
        invariant
            len == s@.len(),
            off <= len,
            acc@.len() <= 3,
            ipv4_text_walk(s@, 0, Seq::empty()) == ipv4_text_walk(s@, off as int, acc@),
        decreases len - off,
    {
        if off >= len || !(48 <= s[off] && s[off] <= 57) {
            return None;
        }
        let d0 = (s[off] - 48) as u32;
        let mut v: u32 = d0;
        let mut glen: usize = 1;
        if off + 1 < len && 48 <= s[off + 1] && s[off + 1] <= 57 {
            if s[off] == 48 {
                return None;
            }
            if off + 2 < len && 48 <= s[off + 2] && s[off + 2] <= 57 {
                if off + 3 < len && 48 <= s[off + 3] && s[off + 3] <= 57 {
                    return None;
                }
                v = 100 * d0 + 10 * ((s[off + 1] - 48) as u32) + ((s[off + 2] - 48) as u32);
                glen = 3;
            } else {
                v = 10 * d0 + ((s[off + 1] - 48) as u32);
                glen = 2;
            }
        }
        if v > 255 {
            return None;
        }
        let end = off + glen;
        if end == len {
            if acc.len() == 3 {
                let a: [u8; 4] = [acc[0], acc[1], acc[2], v as u8];
                let r = IpAddress::V4(a);
                proof {
                    assert(a =~= [acc@[0], acc@[1], acc@[2], v as u8]);
                }
                return Some(r);
            }
            return None;
        }
        if s[end] == 46 && acc.len() < 3 {
            acc.push(v as u8);
            proof {
                assert(acc@.drop_last() =~= acc@.take(acc@.len() - 1));
            }
            off = end + 1;
        } else {
            return None;
        }
    }
}

} // verus!
