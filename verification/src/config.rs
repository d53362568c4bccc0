//! Monitoring-sentinel configuration: the configuration records, and the
//! probe-URL safety check that guards against SSRF.
//!
//! The check rejects non-http(s) schemes and probe hosts that name
//! loopback, link-local (169.254.0.0/16) or RFC 1918 private addresses.
//! Extracting the host from the URL and classifying an address are pure
//! byte logic and live here, verified; turning the host text into an
//! address is the caller's (std's) parsing and stays outside the library.

use vstd::prelude::*;

verus! {

/// Top-level sentinel configuration.
#[derive(Debug)]
pub struct Config {
    pub general: GeneralConfig,
    pub monitoring: MonitoringConfig,
    pub alerting: AlertingConfig,
    pub probe: Option<ProbeConfig>,
}

/// Liveness-probe settings.
#[derive(Debug)]
pub struct ProbeConfig {
    pub url: String,
    pub check_interval_seconds: u64,
    pub failure_threshold: u32,
}

/// General settings.
#[derive(Debug)]
pub struct GeneralConfig {
    pub check_interval_ms: u64,
}

/// Log-monitoring settings.
#[derive(Debug)]
pub struct MonitoringConfig {
    pub file_patterns: Vec<String>,
    pub recent_file_threshold_seconds: u64,
    pub error_pattern: String,
    pub whitelist_path: Option<String>,
}

/// Alerting settings.
#[derive(Debug)]
pub struct AlertingConfig {
    pub feishu_webhook: Option<String>,
    pub slack_webhook: Option<String>,
    pub min_alert_interval: u64,
}

/// The default minimum interval between alerts, in minutes.
pub fn default_min_alert_interval() -> (r: u64)
    ensures
        r == 5,
{
    5
}

/// An IP address as the probe guard classifies it: four octets, or eight
/// 16-bit groups.
#[derive(Clone, Copy, Debug, PartialEq, Eq)]
pub enum IpAddress {
    V4(u8, u8, u8, u8),
    V6(u16, u16, u16, u16, u16, u16, u16, u16),
}

/// Loopback: 127.0.0.0/8, or ::1.
pub open spec fn spec_is_loopback(ip: IpAddress) -> bool {
    match ip {
        IpAddress::V4(a, _b, _c, _d) => a == 127,
        IpAddress::V6(s0, s1, s2, s3, s4, s5, s6, s7) => s0 == 0 && s1 == 0 && s2 == 0 && s3 == 0
            && s4 == 0 && s5 == 0 && s6 == 0 && s7 == 1,
    }
}

/// Link-local: 169.254.0.0/16, or fe80::/10.
pub open spec fn spec_is_link_local(ip: IpAddress) -> bool {
    match ip {
        IpAddress::V4(a, b, _c, _d) => a == 169 && b == 254,
        IpAddress::V6(s0, _s1, _s2, _s3, _s4, _s5, _s6, _s7) => (s0 & 0xffc0) == 0xfe80,
    }
}

/// RFC 1918 private space: 10/8, 172.16/12, 192.168/16; never an IPv6
/// address.
pub open spec fn spec_is_rfc1918(ip: IpAddress) -> bool {
    match ip {
        IpAddress::V4(a, b, _c, _d) => a == 10 || (a == 172 && 16 <= b <= 31) || (a == 192 && b
            == 168),
        IpAddress::V6(..) => false,
    }
}

/// Whether `ip` is a loopback address.
pub fn is_loopback(ip: IpAddress) -> (r: bool)
    ensures
        r == spec_is_loopback(ip),
{
    match ip {
        IpAddress::V4(a, _b, _c, _d) => a == 127,
        IpAddress::V6(s0, s1, s2, s3, s4, s5, s6, s7) => s0 == 0 && s1 == 0 && s2 == 0 && s3 == 0
            && s4 == 0 && s5 == 0 && s6 == 0 && s7 == 1,
    }
}

/// Whether `ip` is link-local (169.254.0.0/16 or fe80::/10).
pub fn is_link_local(ip: IpAddress) -> (r: bool)
    ensures
        r == spec_is_link_local(ip),
{
    match ip {
        IpAddress::V4(a, b, _c, _d) => a == 169 && b == 254,
        IpAddress::V6(s0, _s1, _s2, _s3, _s4, _s5, _s6, _s7) => (s0 & 0xffc0) == 0xfe80,
    }
}

/// Whether `ip` is an RFC 1918 private address.
pub fn is_rfc1918(ip: IpAddress) -> (r: bool)
    ensures
        r == spec_is_rfc1918(ip),
{
    match ip {
        IpAddress::V4(a, b, _c, _d) => a == 10 || (a == 172 && 16 <= b && b <= 31) || (a == 192
            && b == 168),
        IpAddress::V6(..) => false,
    }
}

/// Why a probe URL was rejected.
#[derive(Clone, Copy, Debug, PartialEq, Eq)]
pub enum ProbeUrlError {
    /// No `://` in the URL.
    MissingScheme,
    /// A scheme other than http or https.
    DisallowedScheme,
    /// The host is a loopback address.
    LoopbackHost,
    /// The host is a link-local address.
    LinkLocalHost,
    /// The host is an RFC 1918 private address.
    PrivateHost,
}

/// Whether `://` starts at position `i` of `s`.
pub open spec fn scheme_sep_at(s: Seq<u8>, i: int) -> bool {
    0 <= i && i + 3 <= s.len() && s[i] == 58 && s[i + 1] == 47 && s[i + 2] == 47
}

/// The bytes of "http".
pub open spec fn http_bytes() -> Seq<u8> {
    seq![104u8, 116u8, 116u8, 112u8]
}

/// The bytes of "https".
pub open spec fn https_bytes() -> Seq<u8> {
    seq![104u8, 116u8, 116u8, 112u8, 115u8]
}

/// The host part of the URL tail `rest` (what follows `://`): everything
/// up to the first `/` (given by `slash`, or the whole tail), with a
/// trailing `:port` cut at the last colon (given by `colon`), leading `[`
/// and trailing `]` stripped.
pub open spec fn host_of(rest: Seq<u8>, slash: Option<int>, colon: Option<int>) -> Seq<u8> {
    let host_port = match slash {
        Some(j) => rest.subrange(0, j),
        None => rest,
    };
    let unported = match colon {
        Some(k) => host_port.subrange(0, k),
        None => host_port,
    };
    strip_brackets(unported)
}

/// `s` without its leading `[`s and trailing `]`s.
pub open spec fn strip_brackets(s: Seq<u8>) -> Seq<u8>
    decreases s.len(),
{
    if s.len() > 0 && s[0] == 91 {
        strip_brackets(s.skip(1))
    } else if s.len() > 0 && s.last() == 93 {
        strip_brackets(s.drop_last())
    } else {
        s
    }
}

/// Checks the scheme of a probe URL and extracts its host text.
///
/// Fails with `MissingScheme` when the URL holds no `://`, and with
/// `DisallowedScheme` when what precedes the first `://` is neither
/// `http` nor `https`. On success the returned bytes are the host part:
/// the text after `://` up to the first `/`, without a trailing
/// `:`-separated port, brackets stripped.
pub fn probe_host(url: &Vec<u8>) -> (r: Result<Vec<u8>, ProbeUrlError>)
    ensures
        (r == Err::<Vec<u8>, ProbeUrlError>(ProbeUrlError::MissingScheme) <==> forall|i: int|
            !scheme_sep_at(url@, i)),
        (r matches Ok(host) ==> exists|i: int|
            {
                &&& #[trigger] scheme_sep_at(url@, i)
                &&& forall|j: int| 0 <= j < i ==> !scheme_sep_at(url@, j)
                &&& (url@.subrange(0, i) == http_bytes() || url@.subrange(0, i) == https_bytes())
                &&& {
                    let rest = url@.skip(i + 3);
                    exists|sl: Option<int>, co: Option<int>|
                        {
                            &&& first_slash_ok(rest, sl)
                            &&& last_colon_ok(
                                match sl {
                                    Some(j) => rest.subrange(0, j),
                                    None => rest,
                                },
                                co,
                            )
                            &&& host@ == #[trigger] host_of(rest, sl, co)
                        }
                }
            }),
        r is Err ==> (r == Err::<Vec<u8>, ProbeUrlError>(ProbeUrlError::MissingScheme) || r
            == Err::<Vec<u8>, ProbeUrlError>(ProbeUrlError::DisallowedScheme)),
        (r == Err::<Vec<u8>, ProbeUrlError>(ProbeUrlError::DisallowedScheme) <==> exists|i: int|
            {
                &&& #[trigger] scheme_sep_at(url@, i)
                &&& forall|j: int| 0 <= j < i ==> !scheme_sep_at(url@, j)
                &&& url@.subrange(0, i) != http_bytes()
                &&& url@.subrange(0, i) != https_bytes()
            }),
{
    let n = url.len();
    let mut sep_found = false;
    let mut i: usize = 0;
    while !sep_found && n >= 3 && i <= n - 3
        invariant
            n == url@.len(),
            i <= n,
            forall|j: int| 0 <= j < i ==> !scheme_sep_at(url@, j),
            sep_found ==> scheme_sep_at(url@, i as int),
        decreases n - i + (if sep_found { 0int } else { 1int }),
    {
        if url[i] == 58 && url[i + 1] == 47 && url[i + 2] == 47 {
            sep_found = true;
        } else {
            i = i + 1;
        }
    }
    if !sep_found {
        proof {
            assert forall|j: int| !scheme_sep_at(url@, j) by {
                if scheme_sep_at(url@, j) {
                    assert(0 <= j < i);
                }
            }
        }
        return Err(ProbeUrlError::MissingScheme);
    }
    let i = i;
    let scheme_is_http = i == 4 && url[0] == 104 && url[1] == 116 && url[2] == 116 && url[3]
        == 112;
    let scheme_is_https = i == 5 && url[0] == 104 && url[1] == 116 && url[2] == 116 && url[3]
        == 112 && url[4] == 115;
    proof {
        if scheme_is_http {
            assert(url@.subrange(0, i as int) =~= http_bytes());
        }
        if scheme_is_https {
            assert(url@.subrange(0, i as int) =~= https_bytes());
        }
        assert(http_bytes().len() == 4 && http_bytes()[0] == 104 && http_bytes()[1] == 116
            && http_bytes()[2] == 116 && http_bytes()[3] == 112);
        assert(https_bytes().len() == 5 && https_bytes()[0] == 104 && https_bytes()[1] == 116
            && https_bytes()[2] == 116 && https_bytes()[3] == 112 && https_bytes()[4] == 115);
        if !scheme_is_http {
            if url@.subrange(0, i as int) == http_bytes() {
                assert(i == 4);
                assert(url@[0] == url@.subrange(0, 4)[0]);
                assert(url@[1] == url@.subrange(0, 4)[1]);
                assert(url@[2] == url@.subrange(0, 4)[2]);
                assert(url@[3] == url@.subrange(0, 4)[3]);
                assert(false);
            }
        }
        if !scheme_is_https {
            if url@.subrange(0, i as int) == https_bytes() {
                assert(i == 5);
                assert(url@[0] == url@.subrange(0, 5)[0]);
                assert(url@[1] == url@.subrange(0, 5)[1]);
                assert(url@[2] == url@.subrange(0, 5)[2]);
                assert(url@[3] == url@.subrange(0, 5)[3]);
                assert(url@[4] == url@.subrange(0, 5)[4]);
                assert(false);
            }
        }
    }
    if !scheme_is_http && !scheme_is_https {
        return Err(ProbeUrlError::DisallowedScheme);
    }

    // the URL tail after "://"
    let rest_start = i + 3;
    let ghost rest = url@.skip(rest_start as int);

    // cut at the first '/'
    let mut slash_found = false;
    let mut j = rest_start;
    while !slash_found && j < n
        invariant
            rest_start <= n == url@.len(),
            rest == url@.skip(rest_start as int),
            rest_start <= j <= n,
            forall|k: int| 0 <= k < j - rest_start ==> rest[k] != 47,
            slash_found ==> j < n && rest[j - rest_start] == 47,
        decreases n - j + (if slash_found { 0int } else { 1int }),
    {
        if url[j] == 47 {
            slash_found = true;
        } else {
            j = j + 1;
        }
    }
    let slash: Option<usize> = if slash_found {
        Some(j - rest_start)
    } else {
        None
    };
    let ghost slash_g: Option<int> = match slash {
        Some(j) => Some(j as int),
        None => None,
    };
    proof {
        assert(first_slash_ok(rest, slash_g));
    }
    let host_port_len = match slash {
        Some(j) => j,
        None => n - rest_start,
    };
    let ghost host_port = match slash_g {
        Some(j) => rest.subrange(0, j),
        None => rest,
    };
    proof {
        assert(host_port =~= url@.subrange(rest_start as int, rest_start + host_port_len));
    }

    // cut a trailing ":port" at the last colon
    let mut colon_found = false;
    let mut k = host_port_len;
    while !colon_found && k > 0
        invariant
            rest_start + host_port_len <= n == url@.len(),
            rest == url@.skip(rest_start as int),
            host_port.len() == host_port_len,
            forall|t: int| 0 <= t < host_port_len ==> host_port[t] == url@[rest_start + t],
            k <= host_port_len,
            !colon_found ==> (forall|t: int| k <= t < host_port_len ==> host_port[t] != 58),
            colon_found ==> k < host_port_len && host_port[k as int] == 58 && (forall|t: int|
                k < t < host_port_len ==> host_port[t] != 58),
        decreases k + (if colon_found { 0int } else { 1int }),
    {
        k = k - 1;
        if url[rest_start + k] == 58 {
            colon_found = true;
        }
    }
    let colon: Option<usize> = if colon_found {
        Some(k)
    } else {
        None
    };
    let ghost colon_g: Option<int> = match colon {
        Some(k) => Some(k as int),
        None => None,
    };
    proof {
        assert(last_colon_ok(host_port, colon_g));
    }
    let unported_len = match colon {
        Some(k) => k,
        None => host_port_len,
    };
    let ghost unported = match colon_g {
        Some(k) => host_port.subrange(0, k),
        None => host_port,
    };
    proof {
        assert(unported =~= url@.subrange(rest_start as int, rest_start + unported_len));
    }

    // strip brackets: skip leading '[', drop trailing ']'
    let mut lo = rest_start;
    let mut hi = rest_start + unported_len;
    while lo < hi && url[lo] == 91
        invariant
            rest_start <= lo <= hi <= n == url@.len(),
            hi == rest_start + unported_len,
            unported == url@.subrange(rest_start as int, rest_start + unported_len),
            strip_brackets(unported) == strip_brackets(url@.subrange(lo as int, hi as int)),
        decreases hi - lo,
    {
        proof {
            assert(url@.subrange(lo as int, hi as int).skip(1) =~= url@.subrange(
                lo + 1,
                hi as int,
            ));
        }
        lo = lo + 1;
    }
    while hi > lo && url[hi - 1] == 93
        invariant
            rest_start <= lo <= hi <= n == url@.len(),
            strip_brackets(unported) == strip_brackets(url@.subrange(lo as int, hi as int)),
            forall|t: int| lo <= t < hi ==> url@[t] != 91 || t > lo,
            lo < hi ==> url@[lo as int] != 91,
        decreases hi,
    {
        proof {
            assert(url@.subrange(lo as int, hi as int).drop_last() =~= url@.subrange(
                lo as int,
                hi - 1,
            ));
        }
        hi = hi - 1;
    }
    proof {
        assert(strip_brackets(url@.subrange(lo as int, hi as int)) == url@.subrange(
            lo as int,
            hi as int,
        ));
    }

    let mut host: Vec<u8> = Vec::new();
    let mut t = lo;
    while t < hi
        invariant
            lo <= t <= hi <= url@.len(),
            host@ =~= url@.subrange(lo as int, t as int),
        decreases hi - t,
    {
        host.push(url[t]);
        t = t + 1;
    }
    proof {
        assert(host@ =~= url@.subrange(lo as int, hi as int));
        assert(host@ == host_of(rest, slash_g, colon_g));
        assert(scheme_sep_at(url@, i as int));
    }
    Ok(host)
}

/// `sl` names the first `/` of `rest`, or nothing when there is none.
pub open spec fn first_slash_ok(rest: Seq<u8>, sl: Option<int>) -> bool {
    match sl {
        Some(j) => 0 <= j < rest.len() && rest[j] == 47 && (forall|k: int|
            0 <= k < j ==> rest[k] != 47),
        None => forall|k: int| 0 <= k < rest.len() ==> rest[k] != 47,
    }
}

/// `co` names the last `:` of `host_port`, or nothing when there is none.
pub open spec fn last_colon_ok(host_port: Seq<u8>, co: Option<int>) -> bool {
    match co {
        Some(k) => 0 <= k < host_port.len() && host_port[k] == 58 && (forall|t: int|
            k < t < host_port.len() ==> host_port[t] != 58),
        None => forall|t: int| 0 <= t < host_port.len() ==> host_port[t] != 58,
    }
}

/// Rejects a probe host that names a forbidden address: loopback first,
/// then link-local, then RFC 1918 private space. A host that is not an IP
/// literal (`None`) passes.
pub fn classify_probe_host(ip: Option<IpAddress>) -> (r: Result<(), ProbeUrlError>)
    ensures
        (r is Ok <==> match ip {
            None => true,
            Some(a) => !spec_is_loopback(a) && !spec_is_link_local(a) && !spec_is_rfc1918(a),
        }),
        (r == Err::<(), ProbeUrlError>(ProbeUrlError::LoopbackHost) <==> (ip matches Some(a)
            && spec_is_loopback(a))),
        (r == Err::<(), ProbeUrlError>(ProbeUrlError::LinkLocalHost) <==> (ip matches Some(a)
            && !spec_is_loopback(a) && spec_is_link_local(a))),
        (r == Err::<(), ProbeUrlError>(ProbeUrlError::PrivateHost) <==> (ip matches Some(a)
            && !spec_is_loopback(a) && !spec_is_link_local(a) && spec_is_rfc1918(a))),
{
    match ip {
        None => Ok(()),
        Some(a) => {
            if is_loopback(a) {
                Err(ProbeUrlError::LoopbackHost)
            } else if is_link_local(a) {
                Err(ProbeUrlError::LinkLocalHost)
            } else if is_rfc1918(a) {
                Err(ProbeUrlError::PrivateHost)
            } else {
                Ok(())
            }
        }
    }
}

} // verus!
