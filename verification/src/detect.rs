//! Membership detectors over flat network and address lists: VPN/datacenter
//! networks, proxy address lists per protocol, and Tor exit nodes.
//!
//! Each detector is built from raw file content and answers membership
//! questions by exact contracts over the parsed lists.

use vstd::prelude::*;
use crate::net::{IpAddress, IpNet, ip_of_text, loose_net_of_text, mask4, net_contains,
    net_prefix, prefix_ok};
use crate::net::{exec_mask4, parse_ip, parse_net_loose};
use crate::text::{find_from, second_token, starts_with, trim_of};
use crate::text::{find_char, second_token_str, str_starts_with, trim_str};

verus! {

/// The network a detector line contributes: the trimmed line parsed
/// leniently as CIDR, unless blank or a comment.
pub open spec fn net_line(line: Seq<char>) -> Option<IpNet> {
    let t = trim_of(line);
    if t.len() == 0 || t[0] == '#' {
        None
    } else {
        loose_net_of_text(t)
    }
}

/// The address a proxy list line contributes: the text before the first
/// `:` of the trimmed line, parsed as an address, unless blank or a
/// comment.
pub open spec fn proxy_line(line: Seq<char>) -> Option<IpAddress> {
    let t = trim_of(line);
    if t.len() == 0 || t[0] == '#' {
        None
    } else {
        ip_of_text(t.take(find_from(t, 0, ':')))
    }
}

/// The address a Tor exit list line contributes: the second token of an
/// `ExitAddress` line, parsed as an address.
pub open spec fn tor_line(line: Seq<char>) -> Option<IpAddress> {
    let t = trim_of(line);
    if t.len() == 0 || t[0] == '#' {
        None
    } else if !starts_with(t, "ExitAddress "@) {
        None
    } else {
        match second_token(t) {
            Some(tok) => ip_of_text(tok),
            None => None,
        }
    }
}

/// The networks contributed by the lines of `s` from `i` on.
pub open spec fn net_lines_from(s: Seq<char>, i: int) -> Seq<IpNet>
    decreases s.len() - i,
    via net_lines_from_decreases
{
    if i < 0 || i >= s.len() {
        Seq::empty()
    } else {
        let q = find_from(s, i, '\n');
        let head = match net_line(s.subrange(i, q)) {
            Some(n) => seq![n],
            None => Seq::empty(),
        };
        if q >= s.len() {
            head
        } else {
            head + net_lines_from(s, q + 1)
        }
    }
}

#[via_fn]
proof fn net_lines_from_decreases(s: Seq<char>, i: int) {
    if 0 <= i < s.len() {
        crate::text::lemma_scan_bounds(s, i, '\n');
    }
}

/// The proxy addresses contributed by the lines of `s` from `i` on.
pub open spec fn proxy_lines_from(s: Seq<char>, i: int) -> Seq<IpAddress>
    decreases s.len() - i,
    via proxy_lines_from_decreases
{
    if i < 0 || i >= s.len() {
        Seq::empty()
    } else {
        let q = find_from(s, i, '\n');
        let head = match proxy_line(s.subrange(i, q)) {
            Some(a) => seq![a],
            None => Seq::empty(),
        };
        if q >= s.len() {
            head
        } else {
            head + proxy_lines_from(s, q + 1)
        }
    }
}

#[via_fn]
proof fn proxy_lines_from_decreases(s: Seq<char>, i: int) {
    if 0 <= i < s.len() {
        crate::text::lemma_scan_bounds(s, i, '\n');
    }
}

/// The Tor exit addresses contributed by the lines of `s` from `i` on.
pub open spec fn tor_lines_from(s: Seq<char>, i: int) -> Seq<IpAddress>
    decreases s.len() - i,
    via tor_lines_from_decreases
{
    if i < 0 || i >= s.len() {
        Seq::empty()
    } else {
        let q = find_from(s, i, '\n');
        let head = match tor_line(s.subrange(i, q)) {
            Some(a) => seq![a],
            None => Seq::empty(),
        };
        if q >= s.len() {
            head
        } else {
            head + tor_lines_from(s, q + 1)
        }
    }
}

#[via_fn]
proof fn tor_lines_from_decreases(s: Seq<char>, i: int) {
    if 0 <= i < s.len() {
        crate::text::lemma_scan_bounds(s, i, '\n');
    }
}

/// Detects if an IP address belongs to a known VPN or datacenter network.
pub struct VpnDetector {
    networks: Vec<IpNet>,
}

impl VpnDetector {
    /// The parsed network list.
    pub closed spec fn networks_view(self) -> Seq<IpNet> {
        self.networks@
    }

    /// Every stored network has a prefix within its family's bit width.
    pub open spec fn wf(self) -> bool {
        forall|i: int|
            0 <= i < self.networks_view().len() ==> #[trigger] prefix_ok(self.networks_view()[i])
    }

    /// Whether some stored network contains the address.
    pub open spec fn covers(self, ip: IpAddress) -> bool {
        exists|i: int|
            0 <= i < self.networks_view().len() && net_contains(
                #[trigger] self.networks_view()[i],
                ip,
            )
    }

    /// Build a detector from raw database content: one CIDR or address per
    /// line, blank lines and comments skipped, unparsable lines skipped.
    pub fn from_content(content: &str) -> (r: Self)
        ensures
            r.networks_view() == net_lines_from(content@, 0),
            r.wf(),
    {
        let mut networks: Vec<IpNet> = Vec::new();
        let n = content.unicode_len();
        let mut p: usize = 0;
        while p < n
            invariant
                p <= n,
                n == content@.len(),
                net_lines_from(content@, 0) == networks@ + net_lines_from(content@, p as int),
                forall|i: int| 0 <= i < networks@.len() ==> #[trigger] prefix_ok(networks@[i]),
            decreases n - p,
        {
            let q = find_char(content, p, '\n');
            let line = content.substring_char(p, q);
            proof {
                assert(line@ =~= content@.subrange(p as int, q as int));
            }
            let t = trim_str(line);
            if t.unicode_len() > 0 && t.get_char(0) != '#' {
                match parse_net_loose(t) {
                    Some(net) => {
                        networks.push(net);
                    },
                    None => (),
                }
            }
            if q < n {
                p = q + 1;
            } else {
                proof {
                    assert(net_lines_from(content@, q as int + 1) =~= Seq::<IpNet>::empty());
                }
                p = n;
            }
            proof {
                assert(net_lines_from(content@, 0) =~= networks@ + net_lines_from(
                    content@,
                    p as int,
                ));
            }
        }
        VpnDetector { networks }
    }

    /// Checks if the given IP address belongs to a known VPN or datacenter
    /// network.
    pub fn is_vpn_or_datacenter(&self, ip: IpAddress) -> (r: bool)
        requires
            self.wf(),
        ensures
            r == self.covers(ip),
    {
        let mut i: usize = 0;
        let n = self.networks.len();
        while i < n
            invariant
                i <= n,
                n == self.networks@.len(),
                self.wf(),
                forall|j: int|
                    0 <= j < i ==> !net_contains(#[trigger] self.networks_view()[j], ip),
            decreases n - i,
        {
            proof {
                assert(prefix_ok(self.networks_view()[i as int]));
            }
            if self.networks[i].contains(ip) {
                proof {
                    assert(net_contains(self.networks_view()[i as int], ip));
                }
                return true;
            }
            i += 1;
        }
        false
    }

    /// Whether any address of a network range belongs to a known VPN or
    /// datacenter network: an exact stored copy of the range, any overlap
    /// with a stored network, or, for IPv4 ranges of 256 addresses or
    /// fewer, any single covered address.
    pub open spec fn range_flagged(self, input: IpNet) -> bool {
        ||| self.networks_view().contains(input)
        ||| exists|i: int|
            0 <= i < self.networks_view().len() && {
                let v = #[trigger] self.networks_view()[i];
                (net_prefix(v) <= net_prefix(input) && net_contains(v, net_address(input)))
                    || (net_prefix(input) <= net_prefix(v) && net_contains(input, net_address(v)))
            }
        ||| (input matches IpNet::V4 { addr, prefix } && prefix >= 24 && exists|a: u32|
            net_contains(input, IpAddress::V4(a)) && self.covers(IpAddress::V4(a)))
    }

    /// Checks if any IP in the given network range belongs to a known VPN
    /// or datacenter network; `None` where the range does not parse.
    pub fn is_range_vpn_or_datacenter(&self, cidr: &str) -> (r: Option<bool>)
        requires
            self.wf(),
        ensures
            (r is Some) == (loose_net_of_text(cidr@) is Some),
            r matches Some(b) ==> b == self.range_flagged(loose_net_of_text(cidr@)->Some_0),
    {
        let parsed = parse_net_loose(cidr);
        let input = match parsed {
            Some(net) => net,
            None => {
                return None;
            },
        };
        let mut i: usize = 0;
        let n = self.networks.len();
        while i < n
            invariant
                i <= n,
                n == self.networks@.len(),
                self.wf(),
                prefix_ok(input),
                loose_net_of_text(cidr@) == Some(input),
                forall|j: int| 0 <= j < i ==> self.networks_view()[j] != input,
                forall|j: int|
                    0 <= j < i ==> !{
                        let v = #[trigger] self.networks_view()[j];
                        (net_prefix(v) <= net_prefix(input) && net_contains(v, net_address(input)))
                            || (net_prefix(input) <= net_prefix(v) && net_contains(
                            input,
                            net_address(v),
                        ))
                    },
            decreases n - i,
        {
            proof {
                assert(prefix_ok(self.networks_view()[i as int]));
            }
            let v = self.networks[i];
            if v == input {
                proof {
                    assert(self.networks_view()[i as int] == input);
                    assert(self.networks_view().contains(input));
                }
                return Some(true);
            }
            let overlap = (v.prefix() <= input.prefix() && v.contains(input.address()))
                || (input.prefix() <= v.prefix() && input.contains(v.address()));
            if overlap {
                proof {
                    let ghost w = self.networks_view()[i as int];
                    assert((net_prefix(w) <= net_prefix(input) && net_contains(
                        w,
                        net_address(input),
                    )) || (net_prefix(input) <= net_prefix(w) && net_contains(
                        input,
                        net_address(w),
                    )));
                }
                return Some(true);
            }
            i += 1;
        }
        proof {
            assert(!self.networks_view().contains(input)) by {
                if self.networks_view().contains(input) {
                    let j = choose|j: int|
                        0 <= j < self.networks_view().len() && self.networks_view()[j] == input;
                    assert(false);
                }
            }
        }
        match input {
            IpNet::V4 { addr, prefix } => {
                if prefix >= 24 {
                    Some(self.scan_v4_range(addr, prefix))
                } else {
                    Some(false)
                }
            },
            IpNet::V6 { .. } => Some(false),
        }
    }

    /// Scans every address of a small IPv4 range for a covered address.
    fn scan_v4_range(&self, addr: u32, prefix: u8) -> (r: bool)
        requires
            self.wf(),
            24 <= prefix <= 32,
        ensures
            r == exists|a: u32|
                net_contains(IpNet::V4 { addr, prefix }, IpAddress::V4(a)) && self.covers(
                    IpAddress::V4(a),
                ),
    {
        let ghost input = IpNet::V4 { addr, prefix };
        let m = exec_mask4(prefix);
        let base = addr & m;
        let count: u32 = if prefix == 32 {
            1
        } else {
            1u32 << ((32 - prefix) as u32)
        };
        proof {
            lemma_v4_range_members(addr, prefix, base, count);
        }
        let mut o: u32 = 0;
        while o < count
            invariant
                o <= count,
                self.wf(),
                base == addr & mask4(prefix as int),
                base + count <= 4294967296,
                forall|a: u32|
                    net_contains(IpNet::V4 { addr, prefix }, IpAddress::V4(a)) <==> (base <= a
                        && a < base + count),
                forall|a: u32| base <= a < base + o ==> !self.covers(IpAddress::V4(a)),
            decreases count - o,
        {
            let a = base + o;
            if self.is_vpn_or_datacenter(IpAddress::V4(a)) {
                return true;
            }
            o += 1;
        }
        false
    }
}

/// The address bits of a network, as an address value.
pub open spec fn net_address(n: IpNet) -> IpAddress {
    match n {
        IpNet::V4 { addr, .. } => IpAddress::V4(addr),
        IpNet::V6 { addr, .. } => IpAddress::V6(addr),
    }
}

/// The aligned block below a masked base is exactly the set of addresses
/// agreeing with it on the mask's bits.
proof fn lemma_v4_block(a: u32, b: u32, p: u32, m: u32, c: u32)
    by (bit_vector)
    requires
        24 <= p,
        p < 32,
        m == 0xFFFF_FFFFu32 << ((32 - p) as u32),
        c == 1u32 << ((32 - p) as u32),
    ensures
        (a & m == b & m) <==> ((b & m) <= a && a < (b & m) + c),
        (b & m) + c <= 4294967296,
{
}

/// The IPv4 addresses a short-prefix network contains are exactly the
/// aligned block starting at its masked address.
proof fn lemma_v4_range_members(addr: u32, prefix: u8, base: u32, count: u32)
    requires
        24 <= prefix <= 32,
        base == addr & mask4(prefix as int),
        count == if prefix == 32 {
            1u32
        } else {
            1u32 << ((32 - prefix) as u32)
        },
    ensures
        forall|a: u32|
            net_contains(IpNet::V4 { addr, prefix }, IpAddress::V4(a)) <==> (base <= a && a < base
                + count),
        base + count <= 4294967296,
{
    if prefix == 32 {
        assert(addr & 0xFFFF_FFFFu32 == addr) by (bit_vector);
        assert forall|a: u32|
            net_contains(IpNet::V4 { addr, prefix }, IpAddress::V4(a)) <==> (base <= a && a < base
                + count) by {
            assert(a & 0xFFFF_FFFFu32 == a) by (bit_vector);
        }
    } else {
        let p = prefix as u32;
        let m = mask4(prefix as int);
        assert((32 - prefix as int) as u32 == (32 - p) as u32);
        assert(m == 0xFFFF_FFFFu32 << ((32 - p) as u32));
        assert(count == 1u32 << ((32 - p) as u32));
        lemma_v4_block(0, addr, p, m, count);
        assert forall|a: u32|
            net_contains(IpNet::V4 { addr, prefix }, IpAddress::V4(a)) <==> (base <= a && a < base
                + count) by {
            lemma_v4_block(a, addr, p, m, count);
        }
    }
}

/// Whether a vector of addresses holds the given address.
fn contains_ip(v: &Vec<IpAddress>, a: IpAddress) -> (r: bool)
    ensures
        r == v@.contains(a),
{
    let mut i: usize = 0;
    let n = v.len();
    while i < n
        invariant
            i <= n,
            n == v@.len(),
            forall|j: int| 0 <= j < i ==> v@[j] != a,
        decreases n - i,
    {
        if v[i] == a {
            assert(v@[i as int] == a);
            return true;
        }
        i += 1;
    }
    proof {
        if v@.contains(a) {
            let j = choose|j: int| 0 <= j < v@.len() && v@[j] == a;
            assert(false);
        }
    }
    false
}

/// Collects the distinct addresses a line rule yields over whole content.
/// `which` picks the rule: proxy lines or Tor exit lines.
fn load_address_lines(content: &str, tor: bool) -> (r: Vec<IpAddress>)
    ensures
        forall|x: IpAddress|
            #[trigger] r@.contains(x) <==> (if tor {
                tor_lines_from(content@, 0)
            } else {
                proxy_lines_from(content@, 0)
            }).contains(x),
        forall|i: int, j: int| 0 <= i < j < r@.len() ==> r@[i] != r@[j],
{
    broadcast use vstd::seq_lib::lemma_seq_concat_contains_all_elements;
    broadcast use vstd::seq_lib::lemma_seq_contains_after_push;

    let ghost whole = if tor {
        tor_lines_from(content@, 0)
    } else {
        proxy_lines_from(content@, 0)
    };
    let mut ips: Vec<IpAddress> = Vec::new();
    let ghost mut done = Seq::<IpAddress>::empty();
    let n = content.unicode_len();
    let mut p: usize = 0;
    proof {
        assert(done + whole =~= whole);
    }
    while p < n
        invariant
            p <= n,
            n == content@.len(),
            whole == if tor {
                tor_lines_from(content@, 0)
            } else {
                proxy_lines_from(content@, 0)
            },
            whole == done + (if tor {
                tor_lines_from(content@, p as int)
            } else {
                proxy_lines_from(content@, p as int)
            }),
            forall|x: IpAddress| #[trigger] ips@.contains(x) <==> done.contains(x),
            forall|i: int, j: int| 0 <= i < j < ips@.len() ==> ips@[i] != ips@[j],
        decreases n - p,
    {
        let q = find_char(content, p, '\n');
        let line = content.substring_char(p, q);
        proof {
            assert(line@ =~= content@.subrange(p as int, q as int));
        }
        let t = trim_str(line);
        let found: Option<IpAddress> = if t.unicode_len() == 0 {
            None
        } else if t.get_char(0) == '#' {
            None
        } else if tor {
            if str_starts_with(t, "ExitAddress ") {
                match second_token_str(t) {
                    Some(tok) => parse_ip(tok),
                    None => None,
                }
            } else {
                None
            }
        } else {
            let colon = find_char(t, 0, ':');
            let pre = t.substring_char(0, colon);
            parse_ip(pre)
        };
        proof {
            let line_result = if tor {
                tor_line(line@)
            } else {
                proxy_line(line@)
            };
            assert(found == line_result);
        }
        let ghost head = match found {
            Some(a) => seq![a],
            None => Seq::<IpAddress>::empty(),
        };
        let ghost pre = ips@;
        let ghost done_pre = done;
        match found {
            Some(a) => {
                if !contains_ip(&ips, a) {
                    ips.push(a);
                }
                proof {
                    assert(seq![a][0] == a);
                    assert forall|x: IpAddress| (done_pre + seq![a]).contains(x) <==> (
                    done_pre.contains(x) || x == a) by {
                        vstd::seq_lib::lemma_seq_concat_contains_all_elements(done_pre, seq![a], x);
                        if seq![a].contains(x) {
                            let j = choose|j: int| 0 <= j < seq![a].len() && seq![a][j] == x;
                            assert(j == 0);
                        }
                    }
                }
            },
            None => {
                proof {
                    assert(done_pre + head =~= done_pre);
                }
            },
        }
        proof {
            done = done_pre + head;
            assert forall|x: IpAddress| #[trigger] ips@.contains(x) <==> done.contains(x) by {
                match found {
                    Some(a) => {
                        if pre.contains(a) {
                            assert(ips@ == pre);
                        } else {
                            assert(ips@ == pre.push(a));
                        }
                        if ips@.contains(x) {
                            let j = choose|j: int| 0 <= j < ips@.len() && ips@[j] == x;
                            if j < pre.len() {
                                assert(pre[j] == x);
                            }
                        }
                        if pre.contains(x) {
                            let j = choose|j: int| 0 <= j < pre.len() && pre[j] == x;
                            assert(ips@[j] == x);
                        }
                        if x == a && ips@ == pre.push(a) {
                            assert(ips@[pre.len() as int] == a);
                        }
                    },
                    None => (),
                }
            }
        }
        if q < n {
            p = q + 1;
        } else {
            proof {
                if tor {
                    assert(tor_lines_from(content@, q as int + 1) =~= Seq::<IpAddress>::empty());
                } else {
                    assert(proxy_lines_from(content@, q as int + 1) =~= Seq::<IpAddress>::empty());
                }
            }
            p = n;
        }
        proof {
            if tor {
                assert(whole =~= done + tor_lines_from(content@, p as int));
            } else {
                assert(whole =~= done + proxy_lines_from(content@, p as int));
            }
        }
    }
    ips
}

/// Detects if an IP address is a known proxy server, per protocol list.
pub struct ProxyDetector {
    http_proxies: Vec<IpAddress>,
    socks4_proxies: Vec<IpAddress>,
    socks5_proxies: Vec<IpAddress>,
}

impl ProxyDetector {
    /// The stored HTTP proxy addresses.
    pub closed spec fn http_view(self) -> Seq<IpAddress> {
        self.http_proxies@
    }

    /// The stored SOCKS4 proxy addresses.
    pub closed spec fn socks4_view(self) -> Seq<IpAddress> {
        self.socks4_proxies@
    }

    /// The stored SOCKS5 proxy addresses.
    pub closed spec fn socks5_view(self) -> Seq<IpAddress> {
        self.socks5_proxies@
    }

    /// Whether the address is on any of the three proxy lists.
    pub open spec fn is_proxy_model(self, ip: IpAddress) -> bool {
        self.http_view().contains(ip) || self.socks4_view().contains(ip)
            || self.socks5_view().contains(ip)
    }

    /// The protocol label reported for an address, most specific first.
    pub open spec fn proxy_label(self, ip: IpAddress) -> Option<Seq<char>> {
        if self.http_view().contains(ip) {
            Some("HTTP/HTTPS"@)
        } else if self.socks5_view().contains(ip) {
            Some("SOCKS5"@)
        } else if self.socks4_view().contains(ip) {
            Some("SOCKS4"@)
        } else {
            None
        }
    }

    /// Load the distinct proxy addresses of one list's content: the text
    /// before the first `:` of each line, parsed as an address; blank
    /// lines, comments and unparsable entries skipped.
    pub fn load_proxy_ips(content: &str) -> (r: Vec<IpAddress>)
        ensures
            forall|x: IpAddress|
                #[trigger] r@.contains(x) <==> proxy_lines_from(content@, 0).contains(x),
            forall|i: int, j: int| 0 <= i < j < r@.len() ==> r@[i] != r@[j],
    {
        load_address_lines(content, false)
    }

    /// Build a detector from the three protocol lists' raw content.
    pub fn from_contents(http: &str, socks4: &str, socks5: &str) -> (r: Self)
        ensures
            forall|x: IpAddress|
                #[trigger] r.http_view().contains(x) <==> proxy_lines_from(http@, 0).contains(x),
            forall|x: IpAddress|
                #[trigger] r.socks4_view().contains(x) <==> proxy_lines_from(socks4@, 0).contains(
                    x,
                ),
            forall|x: IpAddress|
                #[trigger] r.socks5_view().contains(x) <==> proxy_lines_from(socks5@, 0).contains(
                    x,
                ),
    {
        ProxyDetector {
            http_proxies: Self::load_proxy_ips(http),
            socks4_proxies: Self::load_proxy_ips(socks4),
            socks5_proxies: Self::load_proxy_ips(socks5),
        }
    }

    /// Checks if the given IP address is a known proxy and returns its
    /// protocol label if found.
    pub fn check_proxy(&self, ip: IpAddress) -> (r: Option<&'static str>)
        ensures
            (r is Some) == (self.proxy_label(ip) is Some),
            r matches Some(s) ==> self.proxy_label(ip) == Some(s@),
    {
        if contains_ip(&self.http_proxies, ip) {
            Some("HTTP/HTTPS")
        } else if contains_ip(&self.socks5_proxies, ip) {
            Some("SOCKS5")
        } else if contains_ip(&self.socks4_proxies, ip) {
            Some("SOCKS4")
        } else {
            None
        }
    }

    /// Checks if the given IP address is any kind of known proxy.
    pub fn is_proxy(&self, ip: IpAddress) -> (r: bool)
        ensures
            r == self.is_proxy_model(ip),
    {
        self.check_proxy(ip).is_some()
    }

    /// Whether a range is reported as holding a proxy: for IPv4 ranges of
    /// 256 addresses or fewer every address is scanned, otherwise only the
    /// range's own address is checked.
    pub open spec fn range_proxy_model(self, n: IpNet) -> bool {
        if n matches IpNet::V4 { addr, prefix } && prefix >= 24 {
            exists|a: u32|
                net_contains(n, IpAddress::V4(a)) && self.is_proxy_model(IpAddress::V4(a))
        } else {
            self.is_proxy_model(net_address(n))
        }
    }

    /// Checks if any IP in the given network range is a known proxy
    /// server; `None` where the range does not parse.
    pub fn is_range_proxy(&self, cidr: &str) -> (r: Option<bool>)
        ensures
            (r is Some) == (loose_net_of_text(cidr@) is Some),
            r matches Some(b) ==> b == self.range_proxy_model(loose_net_of_text(cidr@)->Some_0),
    {
        let parsed = parse_net_loose(cidr);
        let input = match parsed {
            Some(net) => net,
            None => {
                return None;
            },
        };
        match input {
            IpNet::V4 { addr, prefix } => {
                if prefix >= 24 {
                    Some(self.scan_v4_proxies(addr, prefix))
                } else {
                    Some(self.is_proxy(IpAddress::V4(addr)))
                }
            },
            IpNet::V6 { addr, .. } => Some(self.is_proxy(IpAddress::V6(addr))),
        }
    }

    /// Scans every address of a small IPv4 range for a known proxy.
    fn scan_v4_proxies(&self, addr: u32, prefix: u8) -> (r: bool)
        requires
            24 <= prefix <= 32,
        ensures
            r == exists|a: u32|
                net_contains(IpNet::V4 { addr, prefix }, IpAddress::V4(a)) && self.is_proxy_model(
                    IpAddress::V4(a),
                ),
    {
        let m = exec_mask4(prefix);
        let base = addr & m;
        let count: u32 = if prefix == 32 {
            1
        } else {
            1u32 << ((32 - prefix) as u32)
        };
        proof {
            lemma_v4_range_members(addr, prefix, base, count);
        }
        let mut o: u32 = 0;
        while o < count
            invariant
                o <= count,
                base == addr & mask4(prefix as int),
                base + count <= 4294967296,
                forall|a: u32|
                    net_contains(IpNet::V4 { addr, prefix }, IpAddress::V4(a)) <==> (base <= a
                        && a < base + count),
                forall|a: u32| base <= a < base + o ==> !self.is_proxy_model(IpAddress::V4(a)),
            decreases count - o,
        {
            let a = base + o;
            if self.is_proxy(IpAddress::V4(a)) {
                return true;
            }
            o += 1;
        }
        false
    }
}

/// Detects if an IP address is a known Tor exit node.
pub struct TorDetector {
    exit_nodes: Vec<IpAddress>,
}

impl TorDetector {
    /// The stored exit-node addresses.
    pub closed spec fn exit_view(self) -> Seq<IpAddress> {
        self.exit_nodes@
    }

    /// Load the distinct exit-node addresses of an exit list: the second
    /// token of each `ExitAddress` line, parsed as an address; other
    /// lines, comments and unparsable entries skipped, duplicates kept
    /// once.
    pub fn load_exit_nodes(content: &str) -> (r: Vec<IpAddress>)
        ensures
            forall|x: IpAddress|
                #[trigger] r@.contains(x) <==> tor_lines_from(content@, 0).contains(x),
            forall|i: int, j: int| 0 <= i < j < r@.len() ==> r@[i] != r@[j],
    {
        load_address_lines(content, true)
    }

    /// Build a detector from an exit list's raw content.
    pub fn from_content(content: &str) -> (r: Self)
        ensures
            forall|x: IpAddress|
                #[trigger] r.exit_view().contains(x) <==> tor_lines_from(content@, 0).contains(x),
    {
        TorDetector { exit_nodes: Self::load_exit_nodes(content) }
    }

    /// Checks if the given IP address is a known Tor exit node.
    pub fn is_tor_exit_node(&self, ip: IpAddress) -> (r: bool)
        ensures
            r == self.exit_view().contains(ip),
    {
        contains_ip(&self.exit_nodes, ip)
    }

    /// The number of stored exit nodes.
    pub fn len(&self) -> (r: usize)
        ensures
            r == self.exit_view().len(),
    {
        self.exit_nodes.len()
    }
}

} // verus!
