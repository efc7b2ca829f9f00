//! Plain records of DNS lookups. Resolution itself is a collaborator's
//! business; probes accept already-resolved addresses, and these records
//! only carry what a lookup reported.

use vstd::prelude::*;

use crate::ip::IpAddress;

verus! {

/// A domain with its resolved addresses.
#[derive(Clone, Debug)]
pub struct Domain {
    pub name: String,
    pub ips: Vec<IpAddress>,
}

/// A mail-exchanger record.
#[derive(Clone, Debug)]
pub struct MxRecord {
    pub preference: u16,
    pub exchange: String,
}

/// A start-of-authority record.
#[derive(Clone, Debug)]
pub struct SoaRecord {
    pub mname: String,
    pub rname: String,
    pub serial: u32,
    pub refresh: i32,
    pub retry: i32,
    pub expire: i32,
    pub minimum: u32,
}

/// A service-locator record.
#[derive(Clone, Debug)]
pub struct SrvRecord {
    pub priority: u16,
    pub weight: u16,
    pub port: u16,
    pub target: String,
}

/// A TLSA certificate-association record; the certificate data is
/// carried encoded as the resolver returned it.
#[derive(Clone, Debug)]
pub struct TlsaRecord {
    pub cert_usage: u8,
    pub selector: u8,
    pub matching: u8,
    pub cert_data_base64: String,
}

/// A free-form text record, split at its first separator.
#[derive(Clone, Debug)]
pub struct TxtRecord {
    pub key: String,
    pub value: String,
}

/// A certificate record.
#[derive(Clone, Debug)]
pub struct CertRecord {
    pub cert_type: u16,
    pub key_tag: u16,
    pub algorithm: u8,
    pub cert_data_base64: String,
}

} // verus!
