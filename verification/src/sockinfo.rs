//! Models of the host's own socket table: connection states, per-socket
//! records, and the options that select what a dump covers. The dump
//! itself comes from the operating system; the library classifies.

use vstd::prelude::*;

use crate::ip::{AddressFamily, IpAddress};

verus! {

/// TCP flag: end of data.
pub const TCP_FIN: u8 = 1;

/// TCP flag: synchronize sequence numbers.
pub const TCP_SYN: u8 = 2;

/// TCP flag: acknowledgement.
pub const TCP_ACK: u8 = 16;

/// State of a socket, as the platform's connection table reports it.
#[derive(Clone, Copy, Debug, PartialEq, Eq, Structural)]
pub enum SocketStatus {
    Closed,
    Listen,
    SynSent,
    SynReceived,
    Established,
    FinWait1,
    FinWait2,
    CloseWait,
    Closing,
    LastAck,
    TimeWait,
    DeleteTcb,
    Unknown,
}

impl SocketStatus {
    /// The state a packet's TCP flag byte hints at: a lone SYN opens, a
    /// SYN+ACK answers, a lone ACK carries an established connection, a
    /// FIN+ACK or lone FIN closes; anything else says nothing.
    pub fn from_xenet_tcp_flags(flags: u8) -> (r: SocketStatus)
        ensures
            r == Self::from_tcp_flags_spec(flags),
    {
        if flags == TCP_SYN {
            SocketStatus::SynSent
        } else if flags == TCP_SYN + TCP_ACK {
            SocketStatus::SynReceived
        } else if flags == TCP_ACK {
            SocketStatus::Established
        } else if flags == TCP_FIN + TCP_ACK {
            SocketStatus::Closing
        } else if flags == TCP_FIN {
            SocketStatus::FinWait1
        } else {
            SocketStatus::Unknown
        }
    }

    /// The classification `from_xenet_tcp_flags` applies.
    pub open spec fn from_tcp_flags_spec(flags: u8) -> SocketStatus {
        if flags == 2 {
            SocketStatus::SynSent
        } else if flags == 18 {
            SocketStatus::SynReceived
        } else if flags == 16 {
            SocketStatus::Established
        } else if flags == 17 {
            SocketStatus::Closing
        } else if flags == 1 {
            SocketStatus::FinWait1
        } else {
            SocketStatus::Unknown
        }
    }

    /// Name of the state, for display.
    pub fn name(&self) -> (r: String)
        ensures
            r@ == self.name_spec(),
    {
        match self {
            SocketStatus::Closed => String::from_str("CLOSED"),
            SocketStatus::Listen => String::from_str("LISTEN"),
            SocketStatus::SynSent => String::from_str("SYN_SENT"),
            SocketStatus::SynReceived => String::from_str("SYN_RCVD"),
            SocketStatus::Established => String::from_str("ESTABLISHED"),
            SocketStatus::FinWait1 => String::from_str("FIN_WAIT_1"),
            SocketStatus::FinWait2 => String::from_str("FIN_WAIT_2"),
            SocketStatus::CloseWait => String::from_str("CLOSE_WAIT"),
            SocketStatus::Closing => String::from_str("CLOSING"),
            SocketStatus::LastAck => String::from_str("LAST_ACK"),
            SocketStatus::TimeWait => String::from_str("TIME_WAIT"),
            SocketStatus::DeleteTcb => String::from_str("DELETE_TCB"),
            SocketStatus::Unknown => String::from_str("UNKNOWN"),
        }
    }

    /// The character sequence `name` returns.
    pub open spec fn name_spec(self) -> Seq<char> {
        match self {
            SocketStatus::Closed => "CLOSED"@,
            SocketStatus::Listen => "LISTEN"@,
            SocketStatus::SynSent => "SYN_SENT"@,
            SocketStatus::SynReceived => "SYN_RCVD"@,
            SocketStatus::Established => "ESTABLISHED"@,
            SocketStatus::FinWait1 => "FIN_WAIT_1"@,
            SocketStatus::FinWait2 => "FIN_WAIT_2"@,
            SocketStatus::CloseWait => "CLOSE_WAIT"@,
            SocketStatus::Closing => "CLOSING"@,
            SocketStatus::LastAck => "LAST_ACK"@,
            SocketStatus::TimeWait => "TIME_WAIT"@,
            SocketStatus::DeleteTcb => "DELETE_TCB"@,
            SocketStatus::Unknown => "UNKNOWN"@,
        }
    }
}

/// Transport protocol of a socket-table row.
#[derive(Clone, Copy, Debug, PartialEq, Eq, Structural)]
pub enum TransportProtocol {
    TCP,
    UDP,
}

/// A process that owns a socket.
#[derive(Clone, Debug)]
pub struct ProcessInfo {
    pub pid: u32,
    pub name: String,
}

/// One row of the host's socket table.
#[derive(Clone, Debug)]
pub struct SocketInfo {
    pub local_ip_addr: IpAddress,
    pub local_port: u16,
    pub remote_ip_addr: Option<IpAddress>,
    pub remote_port: Option<u16>,
    pub protocol: TransportProtocol,
    pub status: SocketStatus,
    pub ip_version: AddressFamily,
    pub processes: Vec<ProcessInfo>,
}

/// A socket-table row joined with its interface counters.
#[derive(Clone, Debug)]
pub struct SocketConnectionInfo {
    pub if_index: u32,
    pub if_name: String,
    pub packet_sent: usize,
    pub packet_received: usize,
    pub bytes_sent: usize,
    pub bytes_received: usize,
    pub status: SocketStatus,
    pub process_info: Option<ProcessInfo>,
}

/// A socket-table row attributed to one process.
#[derive(Clone, Debug)]
pub struct ProcessSocketInfo {
    pub index: usize,
    pub socket_info: SocketInfo,
    pub process_info: ProcessInfo,
}

/// What a socket-table dump covers: which families and which transports.
#[derive(Clone, Debug)]
pub struct SocketInfoOption {
    pub address_family: Vec<AddressFamily>,
    pub transport_protocol: Vec<TransportProtocol>,
}

impl SocketInfoOption {
    /// Cover exactly the given families and transports.
    pub fn new(
        address_family: Vec<AddressFamily>,
        transport_protocol: Vec<TransportProtocol>,
    ) -> (r: SocketInfoOption)
        ensures
            r.address_family == address_family,
            r.transport_protocol == transport_protocol,
    {
        SocketInfoOption { address_family, transport_protocol }
    }
}

impl Default for SocketInfoOption {
    /// Cover everything: both families, both transports.
    fn default() -> (r: SocketInfoOption)
        ensures
            r.address_family@ == seq![AddressFamily::IPv4, AddressFamily::IPv6],
            r.transport_protocol@ == seq![TransportProtocol::TCP, TransportProtocol::UDP],
    {
        let mut address_family: Vec<AddressFamily> = Vec::new();
        address_family.push(AddressFamily::IPv4);
        address_family.push(AddressFamily::IPv6);
        let mut transport_protocol: Vec<TransportProtocol> = Vec::new();
        transport_protocol.push(TransportProtocol::TCP);
        transport_protocol.push(TransportProtocol::UDP);
        proof {
            assert(address_family@ =~= seq![AddressFamily::IPv4, AddressFamily::IPv6]);
            assert(transport_protocol@ =~= seq![TransportProtocol::TCP, TransportProtocol::UDP]);
        }
        SocketInfoOption { address_family, transport_protocol }
    }
}

} // verus!
