//! Socket configuration models. The probe engines describe the socket
//! they need with these plain records; the socket layer around the
//! library opens it and applies each option.

use vstd::prelude::*;

use crate::ip::{AddressFamily, SockAddr};

verus! {

/// ICMP protocol version.
#[derive(Clone, Copy, Debug, PartialEq, Eq, Structural)]
pub enum IcmpKind {
    V4,
    V6,
}

/// ICMP socket type: an unprivileged datagram socket where the kernel
/// allows it, a raw socket otherwise.
#[derive(Clone, Copy, Debug, PartialEq, Eq, Structural)]
pub enum IcmpSocketType {
    Dgram,
    Raw,
}

impl IcmpSocketType {
    /// True for the datagram type.
    pub fn is_dgram(&self) -> (r: bool)
        ensures
            r == (*self == IcmpSocketType::Dgram),
    {
        matches!(self, IcmpSocketType::Dgram)
    }

    /// True for the raw type.
    pub fn is_raw(&self) -> (r: bool)
        ensures
            r == (*self == IcmpSocketType::Raw),
    {
        matches!(self, IcmpSocketType::Raw)
    }
}

/// Configuration of an ICMP socket. Timeouts are in milliseconds.
#[derive(Clone, Debug)]
pub struct IcmpConfig {
    /// The socket family.
    pub socket_family: AddressFamily,
    /// Optional bind address.
    pub bind: Option<SockAddr>,
    /// Time-to-live of outgoing IPv4 packets.
    pub ttl: Option<u32>,
    /// Unicast hop limit of outgoing IPv6 packets.
    pub hoplimit: Option<u32>,
    /// Read timeout in milliseconds.
    pub read_timeout_ms: Option<u64>,
    /// Write timeout in milliseconds.
    pub write_timeout_ms: Option<u64>,
    /// Network interface to bind to, where supported.
    pub interface: Option<String>,
    /// Preferred socket type; the opener falls back to the other.
    pub sock_type_hint: IcmpSocketType,
    /// Forwarding table to use, on kernels that offer several.
    pub fib: Option<u32>,
}

impl IcmpConfig {
    /// A fresh configuration for the given ICMP version: no options set,
    /// datagram sockets preferred.
    pub fn new(kind: IcmpKind) -> (r: IcmpConfig)
        ensures
            r.socket_family == (if kind == IcmpKind::V4 {
                AddressFamily::IPv4
            } else {
                AddressFamily::IPv6
            }),
            r.bind is None,
            r.ttl is None,
            r.hoplimit is None,
            r.read_timeout_ms is None,
            r.write_timeout_ms is None,
            r.interface is None,
            r.sock_type_hint == IcmpSocketType::Dgram,
            r.fib is None,
    {
        IcmpConfig {
            socket_family: match kind {
                IcmpKind::V4 => AddressFamily::IPv4,
                IcmpKind::V6 => AddressFamily::IPv6,
            },
            bind: None,
            ttl: None,
            hoplimit: None,
            read_timeout_ms: None,
            write_timeout_ms: None,
            interface: None,
            sock_type_hint: IcmpSocketType::Dgram,
            fib: None,
        }
    }

    /// Set the bind address.
    pub fn with_bind(self, addr: SockAddr) -> (r: IcmpConfig)
        ensures
            r == (IcmpConfig { bind: Some(addr), ..self }),
    {
        IcmpConfig { bind: Some(addr), ..self }
    }

    /// Set the time-to-live of outgoing IPv4 packets.
    pub fn with_ttl(self, ttl: u32) -> (r: IcmpConfig)
        ensures
            r == (IcmpConfig { ttl: Some(ttl), ..self }),
    {
        IcmpConfig { ttl: Some(ttl), ..self }
    }

    /// Set the unicast hop limit of outgoing IPv6 packets.
    pub fn with_hoplimit(self, hops: u32) -> (r: IcmpConfig)
        ensures
            r == (IcmpConfig { hoplimit: Some(hops), ..self }),
    {
        IcmpConfig { hoplimit: Some(hops), ..self }
    }

    /// Set the read timeout.
    pub fn with_read_timeout(self, timeout_ms: u64) -> (r: IcmpConfig)
        ensures
            r == (IcmpConfig { read_timeout_ms: Some(timeout_ms), ..self }),
    {
        IcmpConfig { read_timeout_ms: Some(timeout_ms), ..self }
    }

    /// Set the write timeout.
    pub fn with_write_timeout(self, timeout_ms: u64) -> (r: IcmpConfig)
        ensures
            r == (IcmpConfig { write_timeout_ms: Some(timeout_ms), ..self }),
    {
        IcmpConfig { write_timeout_ms: Some(timeout_ms), ..self }
    }

    /// Set the network interface to bind to.
    pub fn with_interface(self, iface: String) -> (r: IcmpConfig)
        ensures
            r == (IcmpConfig { interface: Some(iface), ..self }),
    {
        IcmpConfig { interface: Some(iface), ..self }
    }

    /// Set the preferred socket type.
    pub fn with_sock_type(self, ty: IcmpSocketType) -> (r: IcmpConfig)
        ensures
            r == (IcmpConfig { sock_type_hint: ty, ..self }),
    {
        IcmpConfig { sock_type_hint: ty, ..self }
    }

    /// Set the forwarding table.
    pub fn with_fib(self, fib: u32) -> (r: IcmpConfig)
        ensures
            r == (IcmpConfig { fib: Some(fib), ..self }),
    {
        IcmpConfig { fib: Some(fib), ..self }
    }
}

/// UDP socket type.
#[derive(Clone, Copy, Debug, PartialEq, Eq, Structural)]
pub enum UdpSocketType {
    Dgram,
    Raw,
}

impl UdpSocketType {
    /// True for the datagram type.
    pub fn is_dgram(&self) -> (r: bool)
        ensures
            r == (*self == UdpSocketType::Dgram),
    {
        matches!(self, UdpSocketType::Dgram)
    }

    /// True for the raw type, which needs elevated privilege.
    pub fn is_raw(&self) -> (r: bool)
        ensures
            r == (*self == UdpSocketType::Raw),
    {
        matches!(self, UdpSocketType::Raw)
    }
}

/// Configuration of a UDP socket. Timeouts are in milliseconds.
#[derive(Clone, Debug)]
pub struct UdpConfig {
    /// The socket family.
    pub socket_family: AddressFamily,
    /// The socket type; raw needs elevated privilege.
    pub socket_type: UdpSocketType,
    /// Address to bind; the kernel chooses when absent.
    pub bind_addr: Option<SockAddr>,
    /// Enable address reuse.
    pub reuseaddr: Option<bool>,
    /// Allow broadcast.
    pub broadcast: Option<bool>,
    /// Time-to-live of outgoing IPv4 packets.
    pub ttl: Option<u32>,
    /// Unicast hop limit of outgoing IPv6 packets.
    pub hoplimit: Option<u32>,
    /// Read timeout in milliseconds.
    pub read_timeout_ms: Option<u64>,
    /// Write timeout in milliseconds.
    pub write_timeout_ms: Option<u64>,
    /// Interface to bind to, where supported.
    pub bind_device: Option<String>,
}

impl Default for UdpConfig {
    /// The default configuration: an IPv4 datagram socket with no
    /// options set.
    fn default() -> (r: UdpConfig)
        ensures
            r == UdpConfig::default_spec(),
    {
        UdpConfig {
            socket_family: AddressFamily::IPv4,
            socket_type: UdpSocketType::Dgram,
            bind_addr: None,
            reuseaddr: None,
            broadcast: None,
            ttl: None,
            hoplimit: None,
            read_timeout_ms: None,
            write_timeout_ms: None,
            bind_device: None,
        }
    }
}

impl UdpConfig {
    /// The default configuration's value.
    pub open spec fn default_spec() -> UdpConfig {
        UdpConfig {
            socket_family: AddressFamily::IPv4,
            socket_type: UdpSocketType::Dgram,
            bind_addr: None,
            reuseaddr: None,
            broadcast: None,
            ttl: None,
            hoplimit: None,
            read_timeout_ms: None,
            write_timeout_ms: None,
            bind_device: None,
        }
    }

    /// A fresh configuration with the defaults.
    pub fn new() -> (r: UdpConfig)
        ensures
            r == UdpConfig::default_spec(),
    {
        Self::default()
    }

    /// Set the bind address.
    pub fn with_bind_addr(self, addr: SockAddr) -> (r: UdpConfig)
        ensures
            r == (UdpConfig { bind_addr: Some(addr), ..self }),
    {
        UdpConfig { bind_addr: Some(addr), ..self }
    }

    /// Enable or disable address reuse.
    pub fn with_reuseaddr(self, on: bool) -> (r: UdpConfig)
        ensures
            r == (UdpConfig { reuseaddr: Some(on), ..self }),
    {
        UdpConfig { reuseaddr: Some(on), ..self }
    }

    /// Allow or forbid broadcast.
    pub fn with_broadcast(self, on: bool) -> (r: UdpConfig)
        ensures
            r == (UdpConfig { broadcast: Some(on), ..self }),
    {
        UdpConfig { broadcast: Some(on), ..self }
    }

    /// Set the time-to-live of outgoing IPv4 packets.
    pub fn with_ttl(self, ttl: u32) -> (r: UdpConfig)
        ensures
            r == (UdpConfig { ttl: Some(ttl), ..self }),
    {
        UdpConfig { ttl: Some(ttl), ..self }
    }

    /// Set the unicast hop limit of outgoing IPv6 packets.
    pub fn with_hoplimit(self, hops: u32) -> (r: UdpConfig)
        ensures
            r == (UdpConfig { hoplimit: Some(hops), ..self }),
    {
        UdpConfig { hoplimit: Some(hops), ..self }
    }

    /// Set the read timeout.
    pub fn with_read_timeout(self, timeout_ms: u64) -> (r: UdpConfig)
        ensures
            r == (UdpConfig { read_timeout_ms: Some(timeout_ms), ..self }),
    {
        UdpConfig { read_timeout_ms: Some(timeout_ms), ..self }
    }

    /// Set the write timeout.
    pub fn with_write_timeout(self, timeout_ms: u64) -> (r: UdpConfig)
        ensures
            r == (UdpConfig { write_timeout_ms: Some(timeout_ms), ..self }),
    {
        UdpConfig { write_timeout_ms: Some(timeout_ms), ..self }
    }

    /// Set the interface to bind to.
    pub fn with_bind_device(self, iface: String) -> (r: UdpConfig)
        ensures
            r == (UdpConfig { bind_device: Some(iface), ..self }),
    {
        UdpConfig { bind_device: Some(iface), ..self }
    }
}

/// Configuration of a TCP connect socket.
#[derive(Clone, Copy, Debug)]
pub struct TcpConfig {
    /// The socket family.
    pub socket_family: AddressFamily,
    /// Disable Nagle's algorithm.
    pub nodelay: Option<bool>,
    /// Time-to-live of outgoing IPv4 packets.
    pub ttl: Option<u32>,
    /// Unicast hop limit of outgoing IPv6 packets.
    pub hoplimit: Option<u32>,
    /// Address to bind; the kernel chooses when absent.
    pub bind_addr: Option<SockAddr>,
}

impl TcpConfig {
    /// A fresh IPv4 stream configuration with no options set.
    pub fn v4_stream() -> (r: TcpConfig)
        ensures
            r.socket_family == AddressFamily::IPv4,
            r.nodelay is None,
            r.ttl is None,
            r.hoplimit is None,
            r.bind_addr is None,
    {
        TcpConfig {
            socket_family: AddressFamily::IPv4,
            nodelay: None,
            ttl: None,
            hoplimit: None,
            bind_addr: None,
        }
    }

    /// A fresh IPv6 stream configuration with no options set.
    pub fn v6_stream() -> (r: TcpConfig)
        ensures
            r.socket_family == AddressFamily::IPv6,
            r.nodelay is None,
            r.ttl is None,
            r.hoplimit is None,
            r.bind_addr is None,
    {
        TcpConfig {
            socket_family: AddressFamily::IPv6,
            nodelay: None,
            ttl: None,
            hoplimit: None,
            bind_addr: None,
        }
    }
}

/// Configuration of a QUIC client endpoint.
#[derive(Clone, Debug)]
pub struct QuicConfig {
    /// Accept any certificate chain; a diagnostic default.
    pub skip_verify: bool,
    /// Application protocols to offer.
    pub alpn: Vec<Vec<u8>>,
    /// The socket family.
    pub family: AddressFamily,
}

impl QuicConfig {
    /// The diagnostic configuration the probes use: verification
    /// skipped, the standard HTTP/3 protocol list offered.
    pub fn probe_default(family: AddressFamily) -> (r: QuicConfig)
        ensures
            r.skip_verify,
            r.family == family,
            r.alpn@.len() == 3,
            r.alpn@[0]@ == seq![104u8, 51u8],
            r.alpn@[1]@ == seq![104u8, 113u8, 45u8, 50u8, 57u8],
            r.alpn@[2]@ == seq![104u8, 113u8, 45u8, 105u8, 110u8, 116u8, 101u8, 114u8, 111u8, 112u8],
    {
        let mut alpn: Vec<Vec<u8>> = Vec::new();
        let mut p1: Vec<u8> = Vec::new();
        p1.push(104);
        p1.push(51);
        alpn.push(p1);
        let mut p2: Vec<u8> = Vec::new();
        p2.push(104);
        p2.push(113);
        p2.push(45);
        p2.push(50);
        p2.push(57);
        alpn.push(p2);
        let mut p3: Vec<u8> = Vec::new();
        p3.push(104);
        p3.push(113);
        p3.push(45);
        p3.push(105);
        p3.push(110);
        p3.push(116);
        p3.push(101);
        p3.push(114);
        p3.push(111);
        p3.push(112);
        alpn.push(p3);
        proof {
            assert(alpn@[0]@ =~= seq![104u8, 51u8]);
            assert(alpn@[1]@ =~= seq![104u8, 113u8, 45u8, 50u8, 57u8]);
            assert(alpn@[2]@ =~= seq![
                104u8,
                113u8,
                45u8,
                105u8,
                110u8,
                116u8,
                101u8,
                114u8,
                111u8,
                112u8,
            ]);
        }
        QuicConfig { skip_verify: true, alpn, family }
    }
}

} // verus!
