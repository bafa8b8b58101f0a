//! The trusted bridge to `ip_network_table::IpNetworkTable`, the outside
//! longest-prefix-match store, and the verified model of its lookups.
//!
//! The table's contents are modeled as a map from networks to categories.
//! Every method the engine calls is wrapped with a contract over that map;
//! the longest-prefix-match function `lpm` is then defined over the map
//! alone and proved to be what a lookup returns.

use vstd::prelude::*;
use crate::net::{IpAddress, IpNet, net_contains, net_is_v4, net_prefix, normalized, mask4, mask6};
use crate::types::IpCategory;

verus! {

#[verifier::external_type_specification]
#[verifier::external_body]
#[verifier::reject_recursive_types(T)]
pub struct ExIpNetworkTable<T>(ip_network_table::IpNetworkTable<T>);

/// The contents of an outside prefix table: which category each stored
/// network maps to.
pub uninterp spec fn table_map(t: ip_network_table::IpNetworkTable<IpCategory>) -> Map<
    IpNet,
    IpCategory,
>;

/// Whether every key of a contents map is a normalized network. Both
/// constructors of stored networks (the strict parser and the table's own
/// key reconstruction) guarantee this shape.
pub open spec fn map_wf(m: Map<IpNet, IpCategory>) -> bool {
    forall|k: IpNet| m.contains_key(k) ==> #[trigger] normalized(k)
}

/// Whether `k` is a stored network containing `ip`.
pub open spec fn is_match(m: Map<IpNet, IpCategory>, ip: IpAddress, k: IpNet) -> bool {
    m.contains_key(k) && net_contains(k, ip)
}

/// Whether `k` is a most specific stored network containing `ip`.
pub open spec fn is_best_match(m: Map<IpNet, IpCategory>, ip: IpAddress, k: IpNet) -> bool {
    is_match(m, ip, k) && forall|j: IpNet| #[trigger]
        is_match(m, ip, j) ==> net_prefix(j) <= net_prefix(k)
}

/// The longest-prefix-match answer over a contents map: the category of the
/// most specific stored network containing `ip`, or none.
pub open spec fn lpm(m: Map<IpNet, IpCategory>, ip: IpAddress) -> Option<IpCategory> {
    if exists|k: IpNet| is_best_match(m, ip, k) {
        Some(m[choose|k: IpNet| is_best_match(m, ip, k)])
    } else {
        None
    }
}

/// Two most specific matches of one address in a well-formed map are the
/// same network: their prefixes are equal, so their masked address bits
/// agree with the address and with each other.
pub proof fn lemma_best_match_unique(
    m: Map<IpNet, IpCategory>,
    ip: IpAddress,
    k1: IpNet,
    k2: IpNet,
)
    requires
        map_wf(m),
        is_best_match(m, ip, k1),
        is_best_match(m, ip, k2),
    ensures
        k1 == k2,
{
    assert(net_prefix(k1) <= net_prefix(k2) && net_prefix(k2) <= net_prefix(k1));
    assert(normalized(k1) && normalized(k2));
    match (k1, k2, ip) {
        (IpNet::V4 { addr: a1, prefix: p1 }, IpNet::V4 { addr: a2, prefix: p2 }, IpAddress::V4(b))
            => {
            assert(p1 == p2);
            assert(a1 == a1 & mask4(p1 as int));
            assert(a1 & mask4(p1 as int) == b & mask4(p1 as int));
            assert(a2 & mask4(p2 as int) == b & mask4(p2 as int));
            assert(a2 == a2 & mask4(p2 as int));
            assert(a1 == a2);
        },
        (IpNet::V6 { addr: a1, prefix: p1 }, IpNet::V6 { addr: a2, prefix: p2 }, IpAddress::V6(b))
            => {
            assert(p1 == p2);
            assert(a1 == a1 & mask6(p1 as int));
            assert(a1 & mask6(p1 as int) == b & mask6(p1 as int));
            assert(a2 & mask6(p2 as int) == b & mask6(p2 as int));
            assert(a2 == a2 & mask6(p2 as int));
            assert(a1 == a2);
        },
        _ => {},
    }
}

/// A most specific match pins the lookup answer: `lpm` yields its category.
pub proof fn lemma_lpm_of_best(m: Map<IpNet, IpCategory>, ip: IpAddress, k: IpNet)
    requires
        map_wf(m),
        is_best_match(m, ip, k),
    ensures
        lpm(m, ip) == Some(m[k]),
{
    let w = choose|j: IpNet| is_best_match(m, ip, j);
    lemma_best_match_unique(m, ip, w, k);
}

/// Relies on ip_network_table::IpNetworkTable::new: an empty table.
#[verifier::external_body]
pub fn tbl_new() -> (r: ip_network_table::IpNetworkTable<IpCategory>)
    ensures
        (table_map(r) == Map::<IpNet, IpCategory>::empty()),
{
    ip_network_table::IpNetworkTable::new()
}

/// Relies on ip_network_table::IpNetworkTable::insert: stores the network's
/// category and hands back the value the exact prefix held before, if any.
#[verifier::external_body]
pub fn tbl_insert(
    t: &mut ip_network_table::IpNetworkTable<IpCategory>,
    n: IpNet,
    cat: IpCategory,
) -> (r: Option<IpCategory>)
    requires
        normalized(n),
    ensures
        table_map(*final(t)) == table_map(*old(t)).insert(n, cat),
        r == if table_map(*old(t)).contains_key(n) {
            Some(table_map(*old(t))[n])
        } else {
            None::<IpCategory>
        },
{
    match n {
        IpNet::V4 { addr, prefix } => t.insert(
            ip_network::Ipv4Network::new(core::net::Ipv4Addr::from(addr), prefix).unwrap(),
            cat,
        ),
        IpNet::V6 { addr, prefix } => t.insert(
            ip_network::Ipv6Network::new(core::net::Ipv6Addr::from(addr), prefix).unwrap(),
            cat,
        ),
    }
}

/// Relies on ip_network_table::IpNetworkTable::remove: drops the exact
/// prefix and hands back the value it held, if any.
#[verifier::external_body]
pub fn tbl_remove(t: &mut ip_network_table::IpNetworkTable<IpCategory>, n: IpNet) -> (r: Option<
    IpCategory,
>)
    requires
        normalized(n),
    ensures
        table_map(*final(t)) == table_map(*old(t)).remove(n),
        r == if table_map(*old(t)).contains_key(n) {
            Some(table_map(*old(t))[n])
        } else {
            None::<IpCategory>
        },
{
    match n {
        IpNet::V4 { addr, prefix } => t.remove(
            ip_network::Ipv4Network::new(core::net::Ipv4Addr::from(addr), prefix).unwrap(),
        ),
        IpNet::V6 { addr, prefix } => t.remove(
            ip_network::Ipv6Network::new(core::net::Ipv6Addr::from(addr), prefix).unwrap(),
        ),
    }
}

/// Relies on ip_network_table::IpNetworkTable::longest_match: hands back a
/// most specific stored network containing the address, with its category,
/// or none when no stored network contains it.
#[verifier::external_body]
pub fn tbl_longest_match(t: &ip_network_table::IpNetworkTable<IpCategory>, ip: IpAddress) -> (r:
    Option<(IpNet, IpCategory)>)
    ensures
        r is None ==> forall|k: IpNet| !is_match(table_map(*t), ip, k),
        r matches Some((n, c)) ==> is_best_match(table_map(*t), ip, n) && table_map(*t)[n] == c,
{
    let a: core::net::IpAddr = match ip {
        IpAddress::V4(b) => core::net::IpAddr::V4(core::net::Ipv4Addr::from(b)),
        IpAddress::V6(b) => core::net::IpAddr::V6(core::net::Ipv6Addr::from(b)),
    };
    t.longest_match(a).map(|(n, c): (ip_network::IpNetwork, &IpCategory)| (match n {
        ip_network::IpNetwork::V4(v) =>
            IpNet::V4 { addr: u32::from(v.network_address()), prefix: v.netmask() },
        ip_network::IpNetwork::V6(v) =>
            IpNet::V6 { addr: u128::from(v.network_address()), prefix: v.netmask() },
    }, *c))
}

/// Relies on ip_network_table::IpNetworkTable::len: how many IPv4 and how
/// many IPv6 networks the table holds.
#[verifier::external_body]
pub fn tbl_len(t: &ip_network_table::IpNetworkTable<IpCategory>) -> (r: (usize, usize))
    requires
        table_map(*t).dom().finite(),
    ensures
        r.0 == table_map(*t).dom().filter(|k: IpNet| net_is_v4(k)).len(),
        r.1 == table_map(*t).dom().filter(|k: IpNet| !net_is_v4(k)).len(),
{
    t.len()
}

/// Relies on ip_network_table::IpNetworkTable::is_empty: whether the table
/// holds no network at all.
#[verifier::external_body]
pub fn tbl_is_empty(t: &ip_network_table::IpNetworkTable<IpCategory>) -> (r: bool)
    ensures
        r == (table_map(*t).dom() == Set::<IpNet>::empty()),
{
    t.is_empty()
}

/// Relies on ip_network_table::IpNetworkTable::iter: every stored network
/// with its category, each exactly once, in the backend's walk order.
#[verifier::external_body]
pub fn tbl_entries(t: &ip_network_table::IpNetworkTable<IpCategory>) -> (r: Vec<
    (IpNet, IpCategory),
>)
    ensures
        forall|i: int|
            0 <= i < r@.len() ==> #[trigger] table_map(*t).contains_key(r@[i].0) && table_map(
                *t,
            )[r@[i].0] == r@[i].1,
        forall|k: IpNet|
            table_map(*t).contains_key(k) ==> exists|i: int|
                0 <= i < r@.len() && #[trigger] r@[i].0 == k,
        forall|i: int, j: int| 0 <= i < j < r@.len() ==> r@[i].0 != r@[j].0,
{
    t.iter().map(|(n, c): (ip_network::IpNetwork, &IpCategory)| (match n {
        ip_network::IpNetwork::V4(v) =>
            IpNet::V4 { addr: u32::from(v.network_address()), prefix: v.netmask() },
        ip_network::IpNetwork::V6(v) =>
            IpNet::V6 { addr: u128::from(v.network_address()), prefix: v.netmask() },
    }, *c)).collect()
}

} // verus!
