//! Plain-value models of IP addresses and CIDR networks, and the trusted
//! bridge to the outside parsers and formatters.
//!
//! Addresses are carried as their raw bits (`u32` for IPv4, `u128` for IPv6),
//! networks as bits plus a prefix length. All prefix-match logic in the crate
//! is stated over these values; only turning text into values and back is
//! delegated to the `ip_network`/`ipnetwork` crates and to std.

use vstd::prelude::*;

verus! {

/// An IP address of either family, as its raw bits.
#[derive(Debug, Clone, Copy, PartialEq, Eq, Structural)]
pub enum IpAddress {
    V4(u32),
    V6(u128),
}

/// A CIDR network of either family: address bits plus a prefix length.
#[derive(Debug, Clone, Copy, PartialEq, Eq, Structural)]
pub enum IpNet {
    V4 { addr: u32, prefix: u8 },
    V6 { addr: u128, prefix: u8 },
}

/// The IPv4 netmask with the `p` leading bits set.
pub open spec fn mask4(p: int) -> u32 {
    if p <= 0 {
        0u32
    } else if p >= 32 {
        0xFFFF_FFFFu32
    } else {
        0xFFFF_FFFFu32 << ((32 - p) as u32)
    }
}

/// The IPv6 netmask with the `p` leading bits set.
pub open spec fn mask6(p: int) -> u128 {
    if p <= 0 {
        0u128
    } else if p >= 128 {
        0xFFFF_FFFF_FFFF_FFFF_FFFF_FFFF_FFFF_FFFFu128
    } else {
        0xFFFF_FFFF_FFFF_FFFF_FFFF_FFFF_FFFF_FFFFu128 << ((128 - p) as u128)
    }
}

/// The prefix length of a network.
pub open spec fn net_prefix(n: IpNet) -> int {
    match n {
        IpNet::V4 { prefix, .. } => prefix as int,
        IpNet::V6 { prefix, .. } => prefix as int,
    }
}

/// Whether a network's prefix length is within its family's bit width.
pub open spec fn prefix_ok(n: IpNet) -> bool {
    match n {
        IpNet::V4 { prefix, .. } => prefix <= 32,
        IpNet::V6 { prefix, .. } => prefix <= 128,
    }
}

/// Whether a network carries no host bits: its address bits equal their
/// masked form. Networks parsed strictly are always of this shape.
pub open spec fn normalized(n: IpNet) -> bool {
    prefix_ok(n) && match n {
        IpNet::V4 { addr, prefix } => addr & mask4(prefix as int) == addr,
        IpNet::V6 { addr, prefix } => addr & mask6(prefix as int) == addr,
    }
}

/// Whether a network is an IPv4 network.
pub open spec fn net_is_v4(n: IpNet) -> bool {
    n matches IpNet::V4 { .. }
}

/// Whether an address is an IPv4 address.
pub open spec fn ip_is_v4(ip: IpAddress) -> bool {
    ip matches IpAddress::V4(_)
}

/// Whether the network contains the address: same family, and the address
/// agrees with the network on every prefix bit. Host bits of the network's
/// own address are ignored, as the outside `contains` implementations do.
pub open spec fn net_contains(n: IpNet, ip: IpAddress) -> bool {
    match (n, ip) {
        (IpNet::V4 { addr, prefix }, IpAddress::V4(b)) => b & mask4(prefix as int) == addr & mask4(
            prefix as int,
        ),
        (IpNet::V6 { addr, prefix }, IpAddress::V6(b)) => b & mask6(prefix as int) == addr & mask6(
            prefix as int,
        ),
        _ => false,
    }
}

/// The single-address network of an address: `a/32` or `a/128`.
pub open spec fn host_net(ip: IpAddress) -> IpNet {
    match ip {
        IpAddress::V4(a) => IpNet::V4 { addr: a, prefix: 32 },
        IpAddress::V6(a) => IpNet::V6 { addr: a, prefix: 128 },
    }
}

impl IpNet {
    /// The prefix length.
    pub fn prefix(&self) -> (r: u8)
        ensures
            r as int == net_prefix(*self),
    {
        match self {
            IpNet::V4 { prefix, .. } => *prefix,
            IpNet::V6 { prefix, .. } => *prefix,
        }
    }

    /// The network's own address bits, as an address value.
    pub fn address(&self) -> (r: IpAddress)
        ensures
            r == match *self {
                IpNet::V4 { addr, .. } => IpAddress::V4(addr),
                IpNet::V6 { addr, .. } => IpAddress::V6(addr),
            },
    {
        match self {
            IpNet::V4 { addr, .. } => IpAddress::V4(*addr),
            IpNet::V6 { addr, .. } => IpAddress::V6(*addr),
        }
    }

    /// Whether this network contains the given address.
    pub fn contains(&self, ip: IpAddress) -> (r: bool)
        requires
            prefix_ok(*self),
        ensures
            r == net_contains(*self, ip),
    {
        match (self, ip) {
            (IpNet::V4 { addr, prefix }, IpAddress::V4(b)) => {
                let m: u32 = exec_mask4(*prefix);
                b & m == *addr & m
            },
            (IpNet::V6 { addr, prefix }, IpAddress::V6(b)) => {
                let m: u128 = exec_mask6(*prefix);
                b & m == *addr & m
            },
            _ => false,
        }
    }
}

/// Computes the IPv4 netmask for a prefix length.
pub fn exec_mask4(p: u8) -> (r: u32)
    requires
        p <= 32,
    ensures
        r == mask4(p as int),
{
    if p == 0 {
        0
    } else if p >= 32 {
        0xFFFF_FFFFu32
    } else {
        0xFFFF_FFFFu32 << ((32 - p) as u32)
    }
}

/// Computes the IPv6 netmask for a prefix length.
pub fn exec_mask6(p: u8) -> (r: u128)
    requires
        p <= 128,
    ensures
        r == mask6(p as int),
{
    if p == 0 {
        0
    } else if p >= 128 {
        0xFFFF_FFFF_FFFF_FFFF_FFFF_FFFF_FFFF_FFFFu128
    } else {
        0xFFFF_FFFF_FFFF_FFFF_FFFF_FFFF_FFFF_FFFFu128 << ((128 - p) as u128)
    }
}

/// What `ip_network`'s strict CIDR parser makes of a piece of text:
/// `None` where it errors (no `/`, bad address, prefix out of range, or host
/// bits set), the parsed network otherwise.
pub uninterp spec fn strict_net_of_text(s: Seq<char>) -> Option<IpNet>;

/// What `ipnetwork`'s lenient parser makes of a piece of text: bare
/// addresses become host networks, host bits are kept.
pub uninterp spec fn loose_net_of_text(s: Seq<char>) -> Option<IpNet>;

/// What std's address parser makes of a piece of text.
pub uninterp spec fn ip_of_text(s: Seq<char>) -> Option<IpAddress>;

/// The canonical CIDR rendering of a normalized network, as `ip_network`
/// displays it.
pub uninterp spec fn net_text(n: IpNet) -> Seq<char>;

/// The CIDR rendering of a network as `ipnetwork` displays it, host bits
/// and all.
pub uninterp spec fn loose_net_text(n: IpNet) -> Seq<char>;

/// The `a/32` (or `a/128`) rendering of an address, as std displays the
/// address.
pub uninterp spec fn host_cidr_text(ip: IpAddress) -> Seq<char>;

/// Relies on ip_network::IpNetwork::from_str: parses `addr/prefix` CIDR
/// text, rejecting missing prefixes, out-of-range prefix lengths and set
/// host bits, so every parsed network is normalized.
#[verifier::external_body]
pub fn parse_net_strict(s: &str) -> (r: Option<IpNet>)
    ensures
        r == strict_net_of_text(s@),
        r matches Some(n) ==> normalized(n),
{
    match s.parse::<ip_network::IpNetwork>() {
        Ok(ip_network::IpNetwork::V4(n)) => Some(
            IpNet::V4 { addr: u32::from(n.network_address()), prefix: n.netmask() },
        ),
        Ok(ip_network::IpNetwork::V6(n)) => Some(
            IpNet::V6 { addr: u128::from(n.network_address()), prefix: n.netmask() },
        ),
        Err(_) => None,
    }
}

/// Relies on ipnetwork::IpNetwork::from_str: parses CIDR text leniently; a
/// bare address gets a full-length prefix and host bits are kept, so only
/// the prefix bound is promised.
#[verifier::external_body]
pub fn parse_net_loose(s: &str) -> (r: Option<IpNet>)
    ensures
        r == loose_net_of_text(s@),
        r matches Some(n) ==> prefix_ok(n),
{
    match s.parse::<ipnetwork::IpNetwork>() {
        Ok(ipnetwork::IpNetwork::V4(n)) => Some(
            IpNet::V4 { addr: u32::from(n.ip()), prefix: n.prefix() },
        ),
        Ok(ipnetwork::IpNetwork::V6(n)) => Some(
            IpNet::V6 { addr: u128::from(n.ip()), prefix: n.prefix() },
        ),
        Err(_) => None,
    }
}

/// Relies on std::net::IpAddr::from_str: parses a plain IPv4 or IPv6
/// address.
#[verifier::external_body]
pub fn parse_ip(s: &str) -> (r: Option<IpAddress>)
    ensures
        r == ip_of_text(s@),
{
    match s.parse::<core::net::IpAddr>() {
        Ok(core::net::IpAddr::V4(a)) => Some(IpAddress::V4(u32::from(a))),
        Ok(core::net::IpAddr::V6(a)) => Some(IpAddress::V6(u128::from(a))),
        Err(_) => None,
    }
}

/// Relies on ip_network's Display: renders a normalized network as
/// `addr/prefix`, which both parsers read back as the same network.
#[verifier::external_body]
pub fn net_to_string(n: &IpNet) -> (r: String)
    requires
        normalized(*n),
    ensures
        r@ == net_text(*n),
        strict_net_of_text(r@) == Some(*n),
        loose_net_of_text(r@) == Some(*n),
{
    match *n {
        IpNet::V4 { addr, prefix } => ip_network::Ipv4Network::new(
            core::net::Ipv4Addr::from(addr),
            prefix,
        ).unwrap().to_string(),
        IpNet::V6 { addr, prefix } => ip_network::Ipv6Network::new(
            core::net::Ipv6Addr::from(addr),
            prefix,
        ).unwrap().to_string(),
    }
}

/// Relies on ipnetwork's Display: renders a network as `addr/prefix` with
/// any host bits kept; its own parser reads the text back as the same
/// network, and the strict parser does too when the network is normalized.
#[verifier::external_body]
pub fn loose_net_to_string(n: &IpNet) -> (r: String)
    requires
        prefix_ok(*n),
    ensures
        r@ == loose_net_text(*n),
        loose_net_of_text(r@) == Some(*n),
        normalized(*n) ==> strict_net_of_text(r@) == Some(*n),
{
    match *n {
        IpNet::V4 { addr, prefix } => ipnetwork::Ipv4Network::new(
            core::net::Ipv4Addr::from(addr),
            prefix,
        ).unwrap().to_string(),
        IpNet::V6 { addr, prefix } => ipnetwork::Ipv6Network::new(
            core::net::Ipv6Addr::from(addr),
            prefix,
        ).unwrap().to_string(),
    }
}

/// Relies on std's Display for addresses: renders `addr/32` or `addr/128`,
/// which both parsers read back as the address's host network.
#[verifier::external_body]
pub fn ip_host_cidr(ip: &IpAddress) -> (r: String)
    ensures
        r@ == host_cidr_text(*ip),
        strict_net_of_text(r@) == Some(host_net(*ip)),
        loose_net_of_text(r@) == Some(host_net(*ip)),
{
    match *ip {
        IpAddress::V4(a) => format!("{}/32", core::net::Ipv4Addr::from(a)),
        IpAddress::V6(a) => format!("{}/128", core::net::Ipv6Addr::from(a)),
    }
}

/// Relies on std::net::IpAddr::from_str and Display: when the text is a
/// plain address, hands back the text itself with `/32` or `/128` appended,
/// which both parsers read as that address's host network.
#[verifier::external_body]
pub fn raw_host_cidr(s: &str) -> (r: Option<String>)
    ensures
        (r is Some) == (ip_of_text(s@) is Some),
        r matches Some(t) ==> ip_of_text(s@) matches Some(ip) && t@ == s@ + (
        if ip_is_v4(ip_of_text(s@)->Some_0) {
            "/32"@
        } else {
            "/128"@
        }) && strict_net_of_text(t@) == Some(host_net(ip)) && loose_net_of_text(t@) == Some(
            host_net(ip),
        ),
{
    match s.parse::<core::net::IpAddr>() {
        Ok(core::net::IpAddr::V4(_)) => Some(format!("{}/32", s)),
        Ok(core::net::IpAddr::V6(_)) => Some(format!("{}/128", s)),
        Err(_) => None,
    }
}

} // verus!
