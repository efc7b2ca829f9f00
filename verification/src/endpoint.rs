//! Host and endpoint models: an address with its hostname, ports and
//! link-layer identity, as discovery assembles them.

use vstd::prelude::*;

use crate::ip::{IpAddress, MacAddress, SockAddr};
use crate::text::clone_opt_string;

verus! {

/// Transport protocol a port is probed or served on.
#[derive(Clone, Copy, Debug, PartialEq, Eq, Structural)]
pub enum TransportProtocol {
    Tcp,
    Udp,
    Quic,
}

/// A network port with its transport protocol.
#[derive(Clone, Copy, Debug, PartialEq, Eq, Structural)]
pub struct Port {
    pub number: u16,
    pub transport: TransportProtocol,
}

impl Port {
    /// Pair a port number with its transport.
    pub fn new(number: u16, transport: TransportProtocol) -> (r: Port)
        ensures
            r.number == number,
            r.transport == transport,
    {
        Port { number, transport }
    }

    /// The port as text: the transport, a colon, the number.
    pub fn to_text(&self) -> (r: String)
        ensures
            r@ == self.transport.name_spec() + ":"@ + crate::text::dec_chars(self.number as int),
    {
        let mut s = self.transport.name();
        s.append(":");
        let digits = crate::text::u64_to_string(self.number as u64);
        s.append(digits.as_str());
        proof {
            assert(s@ =~= self.transport.name_spec() + ":"@ + crate::text::dec_chars(
                self.number as int,
            ));
        }
        s
    }

    /// The socket address of this port at the given address.
    pub fn socket_addr(&self, ip: IpAddress) -> (r: SockAddr)
        ensures
            r.ip == ip,
            r.port == self.number,
    {
        SockAddr { ip, port: self.number }
    }
}

impl TransportProtocol {
    /// Name of the transport, lower case.
    pub fn name(&self) -> (r: String)
        ensures
            r@ == self.name_spec(),
    {
        match self {
            TransportProtocol::Tcp => String::from_str("tcp"),
            TransportProtocol::Udp => String::from_str("udp"),
            TransportProtocol::Quic => String::from_str("quic"),
        }
    }

    /// The character sequence `name` returns.
    pub open spec fn name_spec(self) -> Seq<char> {
        match self {
            TransportProtocol::Tcp => "tcp"@,
            TransportProtocol::Udp => "udp"@,
            TransportProtocol::Quic => "quic"@,
        }
    }
}

impl From<(u16, TransportProtocol)> for Port {
    /// A `(number, transport)` pair converts to the port it names.
    fn from(t: (u16, TransportProtocol)) -> (r: Port) {
        Port { number: t.0, transport: t.1 }
    }
}

impl vstd::std_specs::convert::FromSpecImpl<(u16, TransportProtocol)> for Port {
    open spec fn obeys_from_spec() -> bool {
        true
    }

    open spec fn from_spec(t: (u16, TransportProtocol)) -> Port {
        Port { number: t.0, transport: t.1 }
    }
}

/// A host: a resolved address and, when known, its name.
#[derive(Clone, Debug)]
pub struct Host {
    pub ip: IpAddress,
    pub hostname: Option<String>,
}

impl Default for Host {
    /// The placeholder host: the unspecified IPv4 address, no name.
    fn default() -> (r: Host)
        ensures
            r.ip == IpAddress::V4([0u8, 0u8, 0u8, 0u8]),
            r.hostname is None,
    {
        Host { ip: IpAddress::v4_unspecified(), hostname: None }
    }
}

impl Host {
    /// A host known only by address.
    pub fn new(ip: IpAddress) -> (r: Host)
        ensures
            r.ip == ip,
            r.hostname is None,
    {
        Host { ip, hostname: None }
    }

    /// A host with a name.
    pub fn with_hostname(ip: IpAddress, hostname: String) -> (r: Host)
        ensures
            r.ip == ip,
            r.hostname == Some(hostname),
    {
        Host { ip, hostname: Some(hostname) }
    }
}

/// The socket addresses of the ports among `ports` that use the given
/// transport, at the given address, in order.
pub open spec fn addrs_for(ports: Seq<Port>, ip: IpAddress, transport: TransportProtocol) -> Seq<
    SockAddr,
>
    decreases ports.len(),
{
    if ports.len() == 0 {
        Seq::empty()
    } else {
        addrs_for(ports.drop_last(), ip, transport) + (if ports.last().transport == transport {
            seq![SockAddr { ip, port: ports.last().number }]
        } else {
            Seq::empty()
        })
    }
}

/// Whether a tag list holds a tag with the given text.
pub open spec fn has_tag(tags: Seq<String>, t: Seq<char>) -> bool {
    exists|j: int| 0 <= j < tags.len() && (#[trigger] tags[j])@ == t
}

/// An endpoint assembled by discovery: address, name, link-layer
/// identity, classification tags and known open ports.
#[derive(Clone, Debug)]
pub struct Endpoint {
    pub ip: IpAddress,
    pub hostname: Option<String>,
    pub mac_addr: Option<MacAddress>,
    pub tags: Vec<String>,
    pub ports: Vec<Port>,
}

impl Default for Endpoint {
    /// The placeholder endpoint: the unspecified IPv4 address, nothing
    /// known.
    fn default() -> (r: Endpoint)
        ensures
            r.ip == IpAddress::V4([0u8, 0u8, 0u8, 0u8]),
            r.hostname is None,
            r.mac_addr is None,
            r.tags@.len() == 0,
            r.ports@.len() == 0,
    {
        Endpoint {
            ip: IpAddress::v4_unspecified(),
            hostname: None,
            mac_addr: None,
            tags: Vec::new(),
            ports: Vec::new(),
        }
    }
}

impl Endpoint {
    /// An endpoint known only by address.
    pub fn new(ip: IpAddress) -> (r: Endpoint)
        ensures
            r.ip == ip,
            r.hostname is None,
            r.mac_addr is None,
            r.tags@.len() == 0,
            r.ports@.len() == 0,
    {
        Endpoint {
            ip,
            hostname: None,
            mac_addr: None,
            tags: Vec::new(),
            ports: Vec::new(),
        }
    }

    /// An endpoint with a name.
    pub fn with_hostname(ip: IpAddress, hostname: String) -> (r: Endpoint)
        ensures
            r.ip == ip,
            r.hostname == Some(hostname),
            r.mac_addr is None,
            r.tags@.len() == 0,
            r.ports@.len() == 0,
    {
        Endpoint {
            ip,
            hostname: Some(hostname),
            mac_addr: None,
            tags: Vec::new(),
            ports: Vec::new(),
        }
    }

    /// Add a port unless the endpoint already has it.
    pub fn upsert_port(&mut self, port: Port)
        ensures
            old(self).ports@.contains(port) ==> *final(self) == *old(self),
            !old(self).ports@.contains(port) ==> final(self).ports@ == old(self).ports@.push(port)
                && final(self).ip == old(self).ip && final(self).hostname == old(self).hostname
                && final(self).mac_addr == old(self).mac_addr && final(self).tags == old(
                self,
            ).tags,
            final(self).ports@.contains(port),
    {
        if !contains_port(&self.ports, &port) {
            self.ports.push(port);
            proof {
                assert(self.ports@.last() == port);
            }
        }
    }

    /// Merge another endpoint into this one: fill the name and the MAC
    /// where they are missing, and add the tags and ports that are new.
    pub fn merge(&mut self, other: Endpoint)
        ensures
            final(self).ip == old(self).ip,
            final(self).hostname == (if old(self).hostname is Some {
                old(self).hostname
            } else {
                other.hostname
            }),
            final(self).mac_addr == (if old(self).mac_addr is Some {
                old(self).mac_addr
            } else {
                other.mac_addr
            }),
            // Old tags and ports are kept in place; each of the other's is present.
            final(self).tags@.take(old(self).tags@.len() as int) == old(self).tags@,
            final(self).ports@.take(old(self).ports@.len() as int) == old(self).ports@,
            forall|i: int|
                0 <= i < other.tags@.len() ==> has_tag(
                    final(self).tags@,
                    (#[trigger] other.tags@[i])@,
                ),
            forall|i: int|
                0 <= i < other.ports@.len() ==> final(self).ports@.contains(
                    #[trigger] other.ports@[i],
                ),
    {
        if self.hostname.is_none() {
            self.hostname = clone_opt_string(&other.hostname);
        }
        if self.mac_addr.is_none() {
            self.mac_addr = other.mac_addr;
        }
        let ghost fixed_hostname = self.hostname;
        let ghost fixed_mac = self.mac_addr;
        let ghost base_tags = self.tags@;
        let n_tags = other.tags.len();
        let mut i: usize = 0;
        while i < n_tags
            invariant
                i <= n_tags,
                n_tags == other.tags@.len(),
                self.ip == old(self).ip,
                self.hostname == fixed_hostname,
                self.mac_addr == fixed_mac,
                self.ports == old(self).ports,
                base_tags.is_prefix_of(self.tags@),
                forall|k: int| 0 <= k < i ==> has_tag(self.tags@, (#[trigger] other.tags@[k])@),
            decreases n_tags - i,
        {
            let ghost prev = self.tags@;
            let had = contains_string(&self.tags, &other.tags[i]);
            if !had {
                let t = other.tags[i].clone();
                self.tags.push(t);
            }
            proof {
                assert(base_tags.is_prefix_of(self.tags@));
                assert forall|k: int| 0 <= k < i + 1 implies has_tag(
                    self.tags@,
                    (#[trigger] other.tags@[k])@,
                ) by {
                    if k < i {
                        let j = choose|j: int|
                            0 <= j < prev.len() && (#[trigger] prev[j])@ == (other.tags@[k])@;
                        assert((self.tags@[j])@ == (prev[j])@);
                    } else {
                        if had {
                            let j = choose|j: int|
                                0 <= j < prev.len() && (#[trigger] prev[j])@ == (
                                other.tags@[i as int])@;
                            assert((self.tags@[j])@ == (other.tags@[k])@);
                        } else {
                            assert((self.tags@[self.tags@.len() - 1])@ == (other.tags@[k])@);
                        }
                    }
                }
            }
            i = i + 1;
        }
        let ghost fixed_tags = self.tags@;
        let ghost base_ports = self.ports@;
        let n_ports = other.ports.len();
        let mut k: usize = 0;
        while k < n_ports
            invariant
                k <= n_ports,
                n_ports == other.ports@.len(),
                self.ip == old(self).ip,
                self.hostname == fixed_hostname,
                self.mac_addr == fixed_mac,
                self.tags@ == fixed_tags,
                base_ports.is_prefix_of(self.ports@),
                forall|m: int|
                    0 <= m < k ==> self.ports@.contains(#[trigger] other.ports@[m]),
            decreases n_ports - k,
        {
            let ghost prev = self.ports@;
            let p = other.ports[k];
            let had = contains_port(&self.ports, &p);
            if !had {
                self.ports.push(p);
            }
            proof {
                assert(base_ports.is_prefix_of(self.ports@));
                assert forall|m: int| 0 <= m < k + 1 implies self.ports@.contains(
                    #[trigger] other.ports@[m],
                ) by {
                    if m < k {
                        let j = choose|j: int| 0 <= j < prev.len() && prev[j] == other.ports@[m];
                        assert(self.ports@[j] == other.ports@[m]);
                    } else {
                        if had {
                            assert(prev.contains(p));
                            let j = choose|j: int| 0 <= j < prev.len() && prev[j] == p;
                            assert(self.ports@[j] == p);
                        } else {
                            assert(self.ports@[self.ports@.len() - 1] == p);
                        }
                    }
                }
            }
            k = k + 1;
        }
        proof {
            assert(self.tags@.take(base_tags.len() as int) =~= base_tags);
            assert(self.ports@.take(base_ports.len() as int) =~= base_ports);
        }
    }

    /// The socket addresses of this endpoint's ports that use the given
    /// transport.
    pub fn socket_addrs(&self, transport: TransportProtocol) -> (r: Vec<SockAddr>)
        ensures
            r@ == addrs_for(self.ports@, self.ip, transport),
    {
        let mut out: Vec<SockAddr> = Vec::new();
        let n = self.ports.len();
        let mut i: usize = 0;
        while i < n
            invariant
                i <= n,
                n == self.ports@.len(),
                out@ == addrs_for(self.ports@.take(i as int), self.ip, transport),
            decreases n - i,
        {
            proof {
                assert(self.ports@.take(i + 1).drop_last() =~= self.ports@.take(i as int));
            }
            let p = self.ports[i];
            if matches!((p.transport, transport), (TransportProtocol::Tcp, TransportProtocol::Tcp)
                | (TransportProtocol::Udp, TransportProtocol::Udp)
                | (TransportProtocol::Quic, TransportProtocol::Quic)) {
                out.push(SockAddr { ip: self.ip, port: p.number });
                proof {
                    assert(out@ =~= addrs_for(self.ports@.take(i + 1), self.ip, transport));
                }
            } else {
                proof {
                    assert(out@ =~= addrs_for(self.ports@.take(i + 1), self.ip, transport));
                }
            }
            i = i + 1;
        }
        proof {
            assert(self.ports@.take(n as int) =~= self.ports@);
        }
        out
    }
}

/// Whether a port list holds the given port.
fn contains_port(ports: &Vec<Port>, port: &Port) -> (r: bool)
    ensures
        r == ports@.contains(*port),
{
    let n = ports.len();
    let mut i: usize = 0;
    while i < n
        invariant
            i <= n,
            n == ports@.len(),
            forall|j: int| 0 <= j < i ==> ports@[j] != *port,
        decreases n - i,
    {
        if ports[i] == *port {
            return true;
        }
        i = i + 1;
    }
    false
}

/// Whether a tag list holds a tag with the given text.
fn contains_string(tags: &Vec<String>, tag: &String) -> (r: bool)
    ensures
        r == has_tag(tags@, tag@),
{
    let n = tags.len();
    let mut i: usize = 0;
    while i < n
        invariant
            i <= n,
            n == tags@.len(),
            forall|j: int| 0 <= j < i ==> (#[trigger] tags@[j])@ != tag@,
        decreases n - i,
    {
        if tags[i] == *tag {
            return true;
        }
        i = i + 1;
    }
    false
}

} // verus!
