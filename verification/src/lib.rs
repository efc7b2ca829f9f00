//! Core of a cross-platform network diagnostic tool.
//!
//! The crate models probe runs (ICMP/TCP/UDP/QUIC/HTTP ping, host scan,
//! port scan, traceroute), builds and parses the ICMP packets the probes
//! exchange, summarizes latency statistics, and decodes the kernel
//! neighbor table. Everything here is plain computation: the sockets and
//! the event loop around it live with the caller.

pub mod codec;
pub mod config;
pub mod dnsmodel;
pub mod endpoint;
pub mod error;
pub mod hostscan;
pub mod http;
pub mod ip;
pub mod neigh;
pub mod neighscan;
pub mod netinfo;
pub mod orchestrator;
pub mod ping;
pub mod portscan;
pub mod probe;
pub mod sockcfg;
pub mod sockinfo;
pub mod text;
pub mod trace;

use vstd::prelude::*;

verus! {

/// Remaining bytes from `off` to the end of a buffer, never negative:
/// the measure the byte-record walks shrink.
pub open spec fn remaining(len: int, off: int) -> int {
    if len - off >= 0 {
        len - off
    } else {
        0
    }
}

} // verus!
