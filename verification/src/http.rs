//! The HTTP probe's request target. The probe measures time to first
//! response of a plain `GET /`; the URL it aims at is computed here, the
//! request itself is the caller's business.

use vstd::prelude::*;

use vstd::string::StringSliceAdditionalSpecFns;

verus! {

/// The fixed browser-style user agent the HTTP probe presents.
pub const DEFAULT_USER_AGENT_CHROME: &'static str =
    "Mozilla/5.0 (X11; Linux x86_64) AppleWebKit/537.36 (KHTML, like Gecko) Chrome/120.0.0.0 Safari/537.36";

/// Whether `bytes` begins with `prefix`.
pub open spec fn starts_with_bytes(bytes: Seq<u8>, prefix: Seq<u8>) -> bool {
    bytes.len() >= prefix.len() && bytes.take(prefix.len() as int) == prefix
}

/// The host names a scheme itself when it begins with `http://` or
/// `https://`.
pub open spec fn host_has_scheme(bytes: Seq<u8>) -> bool {
    starts_with_bytes(bytes, seq![104u8, 116u8, 116u8, 112u8, 58u8, 47u8, 47u8]) || host_is_https(
        bytes,
    )
}

/// The host begins with `https://`.
pub open spec fn host_is_https(bytes: Seq<u8>) -> bool {
    starts_with_bytes(bytes, seq![104u8, 116u8, 116u8, 112u8, 115u8, 58u8, 47u8, 47u8])
}

/// Decide whether a byte string begins with the given prefix.
fn starts_with(bytes: &[u8], prefix: &[u8]) -> (r: bool)
    ensures
        r == starts_with_bytes(bytes@, prefix@),
{
    let n = prefix.len();
    if bytes.len() < n {
        return false;
    }
    let mut i: usize = 0;
    while i < n
        invariant
            i <= n,
            n == prefix@.len() <= bytes@.len(),
            forall|j: int| 0 <= j < i ==> bytes@[j] == prefix@[j],
        decreases n - i,
    {
        if bytes[i] != prefix[i] {
            proof {
                assert(bytes@.take(n as int)[i as int] == bytes@[i as int]);
            }
            return false;
        }
        i = i + 1;
    }
    proof {
        assert(bytes@.take(n as int) =~= prefix@);
    }
    true
}

/// The port an HTTP probe aims at: the caller's where given, else 443
/// for an `https://` host and 80 otherwise.
pub open spec fn http_port_spec(host: Seq<u8>, port: Option<u16>) -> u16 {
    match port {
        Some(p) => p,
        None => if host_is_https(host) {
            443u16
        } else {
            80u16
        },
    }
}

/// Compute the port an HTTP probe aims at.
pub fn http_port(host: &str, port: Option<u16>) -> (r: u16)
    ensures
        r == http_port_spec(host.spec_bytes(), port),
{
    broadcast use vstd::array::group_array_axioms;

    match port {
        Some(p) => p,
        None => {
            let https: [u8; 8] = [104, 116, 116, 112, 115, 58, 47, 47];
            proof {
                assert(https@ =~= seq![104u8, 116u8, 116u8, 112u8, 115u8, 58u8, 47u8, 47u8]);
            }
            if starts_with(host.as_bytes(), &https) {
                443
            } else {
                80
            }
        },
    }
}

/// The URL a probe requests: the host itself when it already names a
/// scheme, else the scheme chosen by the port, the host, the port, and
/// the root path.
pub open spec fn http_url_spec(host: Seq<char>, host_bytes: Seq<u8>, port: u16) -> Seq<char> {
    if host_has_scheme(host_bytes) {
        host
    } else {
        let scheme = if port == 443 {
            "https"@
        } else {
            "http"@
        };
        scheme + "://"@ + host + ":"@ + crate::text::dec_chars(port as int) + "/"@
    }
}

/// Build the URL an HTTP probe requests.
pub fn http_url(host: &str, port: u16) -> (r: String)
    ensures
        r@ == http_url_spec(host@, host.spec_bytes(), port),
{
    broadcast use vstd::array::group_array_axioms;

    let http_prefix: [u8; 7] = [104, 116, 116, 112, 58, 47, 47];
    let https_prefix: [u8; 8] = [104, 116, 116, 112, 115, 58, 47, 47];
    proof {
        assert(http_prefix@ =~= seq![104u8, 116u8, 116u8, 112u8, 58u8, 47u8, 47u8]);
        assert(https_prefix@ =~= seq![104u8, 116u8, 116u8, 112u8, 115u8, 58u8, 47u8, 47u8]);
    }
    let bytes = host.as_bytes();
    if starts_with(bytes, &http_prefix) || starts_with(bytes, &https_prefix) {
        return host.to_owned();
    }
    let mut url = if port == 443 {
        String::from_str("https")
    } else {
        String::from_str("http")
    };
    url.append("://");
    url.append(host);
    url.append(":");
    let digits = crate::text::u64_to_string(port as u64);
    url.append(digits.as_str());
    url.append("/");
    proof {
        assert(url@ =~= http_url_spec(host@, host.spec_bytes(), port));
    }
    url
}

} // verus!
