use ip_lookup::net::{parse_ip, parse_net_strict, IpAddress, IpNet};
use ip_lookup::tree::{RadixTree, SharedRadixTree};
use ip_lookup::types::{IpCategory, IpRange, SourceFormat};

fn net(s: &str) -> IpNet {
    parse_net_strict(s).expect("network must parse")
}

fn ip(s: &str) -> IpAddress {
    parse_ip(s).expect("address must parse")
}

#[test]
fn tree_test_insert_and_lookup() {
    let mut tree = RadixTree::new();
    let network = net("192.168.1.0/24");
    tree.insert(network, IpCategory::Vpn);

    let probe = ip("192.168.1.10");
    assert_eq!(tree.lookup(probe), Some(IpCategory::Vpn));

    let probe = ip("192.168.2.10");
    assert_eq!(tree.lookup(probe), None);

    assert_eq!(tree.len(), (1, 0));
    assert_eq!(tree.total_len(), 1);
    assert!(!tree.is_empty());
}

#[test]
fn tree_test_shared_tree() {
    let tree = SharedRadixTree::new();
    let probe = ip("192.168.1.10");

    // Initially empty
    assert_eq!(tree.lookup(probe), None);
    assert_eq!(tree.len(), (0, 0));
    assert!(tree.is_empty());

    // Create a new tree with some data
    let mut new_tree = RadixTree::new();
    let network = net("192.168.1.0/24");
    new_tree.insert(network, IpCategory::Vpn);

    // Replace the tree
    tree.replace(new_tree);

    // Now should find the IP
    assert_eq!(tree.lookup(probe), Some(IpCategory::Vpn));
    assert_eq!(tree.len(), (1, 0));
    assert_eq!(tree.total_len(), 1);
    assert!(!tree.is_empty());

    // Test stats
    let stats = tree.stats();
    assert_eq!(stats.total_lookups, 1);
    assert_eq!(stats.hits, 1);
    assert_eq!(stats.misses, 0);
}

#[test]
fn insert_then_lookup_inside_yields_category() {
    let mut tree = RadixTree::new();
    tree.insert(net("10.0.0.0/8"), IpCategory::ProxySocks5);
    assert_eq!(tree.lookup(ip("10.255.0.1")), Some(IpCategory::ProxySocks5));
    assert_eq!(tree.lookup(ip("10.0.0.0")), Some(IpCategory::ProxySocks5));
}

#[test]
fn uncovered_address_yields_none() {
    let mut tree = RadixTree::new();
    tree.insert(net("10.0.0.0/8"), IpCategory::Vpn);
    tree.insert(net("2001:db8::/32"), IpCategory::TorExitNode);
    assert_eq!(tree.lookup(ip("11.0.0.1")), None);
    assert_eq!(tree.lookup(ip("2001:db9::1")), None);
}

#[test]
fn longest_prefix_match_wins() {
    let mut tree = RadixTree::new();
    tree.insert(net("10.0.0.0/8"), IpCategory::Vpn);
    tree.insert(net("10.1.0.0/16"), IpCategory::ProxyHttp);
    assert_eq!(tree.lookup(ip("10.1.2.3")), Some(IpCategory::ProxyHttp));
    assert_eq!(tree.lookup(ip("10.2.0.0")), Some(IpCategory::Vpn));
}

#[test]
fn families_do_not_cross() {
    let mut tree = RadixTree::new();
    tree.insert(net("10.0.0.0/8"), IpCategory::Vpn);
    let before = tree.lookup(ip("10.1.2.3"));
    // Inserting IPv6 networks must not change any IPv4 lookup, and the
    // IPv6 space stays independent of the IPv4 entries.
    tree.insert(net("2001:db8::/32"), IpCategory::ProxySocks4);
    assert_eq!(tree.lookup(ip("10.1.2.3")), before);
    assert_eq!(tree.lookup(ip("2001:db8::1")), Some(IpCategory::ProxySocks4));
    assert_eq!(tree.lookup(ip("::1")), None);
    assert_eq!(tree.len(), (1, 1));
}

#[test]
fn reinsert_identical_is_idempotent_and_reports_previous() {
    let mut tree = RadixTree::new();
    assert_eq!(tree.insert(net("10.0.0.0/8"), IpCategory::Vpn), None);
    let before = tree.lookup(ip("10.1.2.3"));
    let previous = tree.insert(net("10.0.0.0/8"), IpCategory::Vpn);
    assert_eq!(previous, Some(IpCategory::Vpn));
    assert_eq!(tree.lookup(ip("10.1.2.3")), before);
    assert_eq!(tree.len(), (1, 0));
}

#[test]
fn exact_duplicate_insert_overwrites() {
    let mut tree = RadixTree::new();
    assert_eq!(tree.insert(net("10.0.0.0/8"), IpCategory::Vpn), None);
    assert_eq!(
        tree.insert(net("10.0.0.0/8"), IpCategory::ProxyHttp),
        Some(IpCategory::Vpn)
    );
    assert_eq!(tree.lookup(ip("10.1.2.3")), Some(IpCategory::ProxyHttp));
}

#[test]
fn remove_restores_shorter_prefix() {
    let mut tree = RadixTree::new();
    tree.insert(net("10.0.0.0/8"), IpCategory::Vpn);
    tree.insert(net("10.1.0.0/16"), IpCategory::ProxyHttp);
    assert_eq!(tree.remove(net("10.1.0.0/16")), Some(IpCategory::ProxyHttp));
    assert_eq!(tree.lookup(ip("10.1.2.3")), Some(IpCategory::Vpn));
    assert_eq!(tree.remove(net("10.1.0.0/16")), None);
}

#[test]
fn load_ranges_skips_bad_networks() {
    let mut tree = RadixTree::new();
    let ranges = vec![
        IpRange::new(
            "192.168.1.0/24".to_string(),
            IpCategory::Vpn,
            "test".to_string(),
            SourceFormat::Default,
        ),
        IpRange::new(
            "not-a-network".to_string(),
            IpCategory::Vpn,
            "test".to_string(),
            SourceFormat::Default,
        ),
        IpRange::new(
            "2001:db8::/32".to_string(),
            IpCategory::TorExitNode,
            "test".to_string(),
            SourceFormat::Default,
        ),
    ];
    assert!(tree.load_ranges(&ranges).is_ok());
    assert_eq!(tree.len(), (1, 1));
    assert_eq!(tree.lookup(ip("192.168.1.77")), Some(IpCategory::Vpn));
    assert_eq!(tree.lookup(ip("2001:db8::42")), Some(IpCategory::TorExitNode));
    assert!(tree.stats().last_updated.is_some());
}
