//! Plain records about the host and its connectivity: routes, public
//! address information, system identity and proxy settings. The values
//! come from collaborators around the library; the records and the
//! little logic over them live here.

use vstd::prelude::*;

use vstd::string::StrSliceExecFns;

verus! {

/// One route of the host's routing table, as text fields.
#[derive(Clone, Debug)]
pub struct RouteEntry {
    pub family: u8,
    pub dst: String,
    pub gateway: Option<String>,
    pub on_link: bool,
    pub ifindex: Option<u32>,
    pub ifname: Option<String>,
    pub metric: Option<u32>,
    pub flags: Vec<String>,
    pub proto: Option<String>,
    pub scope: Option<String>,
    pub table: Option<u32>,
    pub lifetime_ms: Option<u64>,
}

/// What a public-address lookup reports for one address.
#[derive(Clone, Debug)]
pub struct IpInfo {
    pub ip_version: String,
    pub ip_addr_dec: String,
    pub ip_addr: String,
    pub host_name: String,
    pub network: String,
    pub asn: String,
    pub as_name: String,
    pub country_code: String,
    pub country_name: String,
}

/// The public addresses of both families, where available.
#[derive(Clone, Debug)]
pub struct IpInfoDual {
    pub ipv4: Option<IpInfo>,
    pub ipv6: Option<IpInfo>,
}

/// Whether a public-address report describes an IPv6 address: its
/// version field says `v6`, or the address text contains a colon.
pub fn is_ipv6(info: &IpInfo) -> (r: bool)
    ensures
        r == (info.ip_version@ == "v6"@ || exists|i: int|
            0 <= i < info.ip_addr@.len() && info.ip_addr@[i] == ':'),
{
    let v6 = String::from_str("v6");
    if info.ip_version == v6 {
        return true;
    }
    let addr = info.ip_addr.as_str();
    let n = addr.unicode_len();
    let mut i: usize = 0;
    while i < n
        invariant
            n == addr@.len(),
            addr@ == info.ip_addr@,
            i <= n,
            forall|j: int| 0 <= j < i ==> addr@[j] != ':',
        decreases n - i,
    {
        if addr.get_char(i) == ':' {
            return true;
        }
        i = i + 1;
    }
    false
}

/// Identity of this application, as shown in its about dialog. The
/// caller fills the build-time values in.
#[derive(Clone, Debug)]
pub struct AppInfo {
    pub name: String,
    pub description: String,
    pub version: String,
    pub authors: Vec<String>,
    pub repository: String,
}

/// Identity of the host system.
#[derive(Clone, Debug)]
pub struct SysInfo {
    pub hostname: String,
    pub os_type: String,
    pub os_version: String,
    pub kernel_version: Option<String>,
    pub edition: String,
    pub codename: String,
    pub bitness: String,
    pub architecture: String,
    pub proxy: ProxyEnv,
}

/// The proxy environment variables, as found.
#[derive(Clone, Debug)]
pub struct ProxyEnv {
    pub http: Option<String>,
    pub https: Option<String>,
    pub all: Option<String>,
    pub no_proxy: Option<String>,
}

} // verus!
