//! Core data entities: address categories, source formats, range records,
//! lookup statistics, and the error taxonomy shared by the whole engine.

use vstd::prelude::*;
use crate::time::now_secs;

verus! {

/// Categories for IP addresses.
#[derive(Debug, Clone, Copy, PartialEq, Eq, Hash, Structural)]
pub enum IpCategory {
    /// IP belongs to a VPN or datacenter.
    Vpn,
    /// IP is an HTTP proxy.
    ProxyHttp,
    /// IP is a SOCKS4 proxy.
    ProxySocks4,
    /// IP is a SOCKS5 proxy.
    ProxySocks5,
    /// IP is a TOR exit node.
    TorExitNode,
}

/// The canonical short name of a category.
pub open spec fn category_name(c: IpCategory) -> Seq<char> {
    match c {
        IpCategory::Vpn => "vpn"@,
        IpCategory::ProxyHttp => "http_proxy"@,
        IpCategory::ProxySocks4 => "socks4_proxy"@,
        IpCategory::ProxySocks5 => "socks5_proxy"@,
        IpCategory::TorExitNode => "tor_exit_node"@,
    }
}

/// A stable small code for each category, used by the snapshot codec.
pub open spec fn category_code(c: IpCategory) -> u64 {
    match c {
        IpCategory::Vpn => 0,
        IpCategory::ProxyHttp => 1,
        IpCategory::ProxySocks4 => 2,
        IpCategory::ProxySocks5 => 3,
        IpCategory::TorExitNode => 4,
    }
}

/// The category encoded by a code, if any.
pub open spec fn category_of_code(n: u64) -> Option<IpCategory> {
    if n == 0 {
        Some(IpCategory::Vpn)
    } else if n == 1 {
        Some(IpCategory::ProxyHttp)
    } else if n == 2 {
        Some(IpCategory::ProxySocks4)
    } else if n == 3 {
        Some(IpCategory::ProxySocks5)
    } else if n == 4 {
        Some(IpCategory::TorExitNode)
    } else {
        None
    }
}

impl IpCategory {
    /// The category's canonical short name, as used in category files and
    /// in rendered responses.
    pub fn as_str(&self) -> (r: &'static str)
        ensures
            r@ == category_name(*self),
    {
        match self {
            IpCategory::Vpn => "vpn",
            IpCategory::ProxyHttp => "http_proxy",
            IpCategory::ProxySocks4 => "socks4_proxy",
            IpCategory::ProxySocks5 => "socks5_proxy",
            IpCategory::TorExitNode => "tor_exit_node",
        }
    }

    /// The stable code of this category, for the snapshot codec.
    pub fn code(&self) -> (r: u64)
        ensures
            r == category_code(*self),
            category_of_code(r) == Some(*self),
    {
        match self {
            IpCategory::Vpn => 0,
            IpCategory::ProxyHttp => 1,
            IpCategory::ProxySocks4 => 2,
            IpCategory::ProxySocks5 => 3,
            IpCategory::TorExitNode => 4,
        }
    }

    /// The category a snapshot code stands for.
    pub fn from_code(n: u64) -> (r: Option<IpCategory>)
        ensures
            r == category_of_code(n),
    {
        if n == 0 {
            Some(IpCategory::Vpn)
        } else if n == 1 {
            Some(IpCategory::ProxyHttp)
        } else if n == 2 {
            Some(IpCategory::ProxySocks4)
        } else if n == 3 {
            Some(IpCategory::ProxySocks5)
        } else if n == 4 {
            Some(IpCategory::TorExitNode)
        } else {
            None
        }
    }
}

/// Declared layout of one feed's raw content.
#[derive(Debug, Clone, Copy, PartialEq, Eq, Structural)]
pub enum SourceFormat {
    /// Plain IP or CIDR lines (default).
    Default,
    /// `ip:port` lines (extracts just the IP part).
    IpPort,
    /// Tor exit node list format.
    TorExitList,
    /// MISP-style JSON list, with a plain-text fallback.
    JsonList,
}

impl Default for SourceFormat {
    fn default() -> (r: Self)
        ensures
            r == SourceFormat::Default,
    {
        SourceFormat::Default
    }
}

/// Address family of a feed, used when deriving cache file names.
#[derive(Debug, Clone, Copy, PartialEq, Eq, Structural)]
pub enum IpVersion {
    V4,
    V6,
}

/// Errors that can occur during IP range operations.
#[derive(Debug, Clone)]
pub enum IpRangeError {
    /// A network string that does not parse as an IP network.
    InvalidNetwork(String),
    /// An I/O failure, with its rendered cause.
    IoError(String),
    /// A malformed persisted snapshot or JSON document.
    SerializationError(String),
    /// A category name outside the closed set.
    UnknownCategory(String),
    /// A URL that does not parse.
    InvalidUrl(String),
}

/// Statistics about lookups in the prefix index.
#[derive(Debug, Clone)]
pub struct LookupStats {
    pub total_lookups: u64,
    pub hits: u64,
    pub misses: u64,
    /// Seconds since the Unix epoch of the last bulk load, if any.
    pub last_updated: Option<u64>,
}

impl Default for LookupStats {
    fn default() -> (r: Self)
        ensures
            r.total_lookups == 0,
            r.hits == 0,
            r.misses == 0,
            r.last_updated is None,
    {
        LookupStats { total_lookups: 0, hits: 0, misses: 0, last_updated: None }
    }
}

/// Represents a range of IP addresses with associated metadata.
#[derive(Debug, Clone)]
pub struct IpRange {
    /// The network in CIDR notation (e.g., "192.168.1.0/24").
    pub network: String,
    /// The category of this IP range.
    pub category: IpCategory,
    /// Source of this IP range (e.g., "vpn-provider-1").
    pub source: String,
    /// The format of the source data.
    pub format: SourceFormat,
    /// When this range was first seen, seconds since the Unix epoch.
    pub first_seen: u64,
    /// When this range was last updated, seconds since the Unix epoch.
    pub last_updated: u64,
}

impl IpRange {
    /// Create a new IP range stamped with the current time.
    pub fn new(network: String, category: IpCategory, source: String, format: SourceFormat) -> (
        r: Self)
        ensures
            r.network@ == network@,
            r.category == category,
            r.source@ == source@,
            r.format == format,
            r.first_seen == r.last_updated,
    {
        let now = now_secs();
        IpRange { network, category, source, format, first_seen: now, last_updated: now }
    }

    /// Update the last_updated timestamp to now.
    pub fn touch(&mut self)
        ensures
            final(self).network@ == old(self).network@,
            final(self).category == old(self).category,
            final(self).source@ == old(self).source@,
            final(self).format == old(self).format,
            final(self).first_seen == old(self).first_seen,
    {
        self.last_updated = now_secs();
    }
}

/// Whether two characters are the same letter, ignoring ASCII case.
pub open spec fn same_letter(a: char, b: char) -> bool {
    a == b || (a as u32 + 32 == b as u32 && 'A' <= a && a <= 'Z') || (b as u32 + 32 == a as u32
        && 'A' <= b && b <= 'Z')
}

/// Whether two texts are equal ignoring ASCII case.
pub open spec fn ci_eq(a: Seq<char>, b: Seq<char>) -> bool {
    a.len() == b.len() && forall|i: int| 0 <= i < a.len() ==> same_letter(a[i], b[i])
}

/// The category a name denotes, ignoring ASCII case: each category is
/// reachable by its canonical name, and the proxies and Tor also by their
/// short forms.
pub open spec fn category_of_name(s: Seq<char>) -> Option<IpCategory> {
    if ci_eq(s, "vpn"@) {
        Some(IpCategory::Vpn)
    } else if ci_eq(s, "http"@) || ci_eq(s, "http_proxy"@) {
        Some(IpCategory::ProxyHttp)
    } else if ci_eq(s, "socks4"@) || ci_eq(s, "socks4_proxy"@) {
        Some(IpCategory::ProxySocks4)
    } else if ci_eq(s, "socks5"@) || ci_eq(s, "socks5_proxy"@) {
        Some(IpCategory::ProxySocks5)
    } else if ci_eq(s, "tor"@) || ci_eq(s, "tor_exit"@) || ci_eq(s, "tor_exit_node"@) {
        Some(IpCategory::TorExitNode)
    } else {
        None
    }
}

/// Whether two texts are equal ignoring ASCII case.
fn eq_ignore_case(a: &str, b: &str) -> (r: bool)
    ensures
        r == ci_eq(a@, b@),
{
    let n = a.unicode_len();
    if n != b.unicode_len() {
        return false;
    }
    let mut i: usize = 0;
    while i < n
        invariant
            i <= n,
            n == a@.len(),
            n == b@.len(),
            forall|j: int| 0 <= j < i ==> same_letter(a@[j], b@[j]),
        decreases n - i,
    {
        let ca = a.get_char(i);
        let cb = b.get_char(i);
        let same = ca == cb || (ca as u32 + 32 == cb as u32 && 'A' <= ca && ca <= 'Z') || (
        cb as u32 + 32 == ca as u32 && 'A' <= cb && cb <= 'Z');
        if !same {
            return false;
        }
        i += 1;
    }
    true
}

impl IpCategory {
    /// Parse a category name, ignoring ASCII case; a name outside the
    /// closed set is rejected with an UnknownCategory error.
    pub fn parse_name(s: &str) -> (r: Result<IpCategory, IpRangeError>)
        ensures
            (r is Ok) == (category_of_name(s@) is Some),
            r matches Ok(c) ==> category_of_name(s@) == Some(c),
            r matches Err(e) ==> e matches IpRangeError::UnknownCategory(m) && m@
                == "Unknown IP category: "@ + s@,
    {
        if eq_ignore_case(s, "vpn") {
            Ok(IpCategory::Vpn)
        } else if eq_ignore_case(s, "http") || eq_ignore_case(s, "http_proxy") {
            Ok(IpCategory::ProxyHttp)
        } else if eq_ignore_case(s, "socks4") || eq_ignore_case(s, "socks4_proxy") {
            Ok(IpCategory::ProxySocks4)
        } else if eq_ignore_case(s, "socks5") || eq_ignore_case(s, "socks5_proxy") {
            Ok(IpCategory::ProxySocks5)
        } else if eq_ignore_case(s, "tor") || eq_ignore_case(s, "tor_exit") || eq_ignore_case(
            s,
            "tor_exit_node",
        ) {
            Ok(IpCategory::TorExitNode)
        } else {
            Err(
                IpRangeError::UnknownCategory(
                    String::from_str("Unknown IP category: ").concat(s),
                ),
            )
        }
    }
}

} // verus!
