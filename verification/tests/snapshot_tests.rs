use ip_lookup::net::{parse_ip, parse_net_strict};
use ip_lookup::snapshot::{from_document, to_document, IndexDocument};
use ip_lookup::tree::RadixTree;
use ip_lookup::types::{IpCategory, IpRangeError, LookupStats};

fn sample_tree() -> RadixTree {
    let mut tree = RadixTree::new();
    tree.insert(parse_net_strict("10.0.0.0/8").unwrap(), IpCategory::Vpn);
    tree.insert(
        parse_net_strict("10.1.0.0/16").unwrap(),
        IpCategory::ProxyHttp,
    );
    tree.insert(
        parse_net_strict("198.51.100.7/32").unwrap(),
        IpCategory::ProxySocks5,
    );
    tree.insert(
        parse_net_strict("2001:db8::/32").unwrap(),
        IpCategory::TorExitNode,
    );
    tree
}

#[test]
fn save_load_roundtrip_preserves_lookups() {
    let original = sample_tree();
    let doc = to_document(&original);
    let rebuilt = from_document(doc).unwrap();

    // A representative probe set: hits of several specificities, and
    // misses in both families.
    let probes = [
        "10.0.0.1",
        "10.1.2.3",
        "10.255.255.255",
        "198.51.100.7",
        "198.51.100.8",
        "8.8.8.8",
        "2001:db8::1",
        "2001:db9::1",
        "::1",
    ];
    for probe in probes {
        let addr = parse_ip(probe).unwrap();
        assert_eq!(
            rebuilt.lookup(addr),
            original.lookup(addr),
            "lookup diverged for {}",
            probe
        );
    }
    assert_eq!(rebuilt.len(), original.len());
}

#[test]
fn document_lists_every_entry_per_family() {
    let doc = to_document(&sample_tree());
    assert_eq!(doc.v4_entries.len(), 3);
    assert_eq!(doc.v6_entries.len(), 1);
    assert!(doc
        .v4_entries
        .iter()
        .any(|e| e.0 == "10.0.0.0/8" && e.1 == IpCategory::Vpn));
    assert!(doc
        .v6_entries
        .iter()
        .any(|e| e.0 == "2001:db8::/32" && e.1 == IpCategory::TorExitNode));
}

#[test]
fn malformed_entry_is_rejected_with_deserialization_error() {
    let doc = IndexDocument {
        v4_entries: vec![
            ("10.0.0.0/8".to_string(), IpCategory::Vpn),
            ("not-a-network".to_string(), IpCategory::Vpn),
        ],
        v6_entries: vec![],
        metadata: vec![],
        stats: LookupStats::default(),
    };
    let result = from_document(doc);
    assert!(matches!(result, Err(IpRangeError::SerializationError(_))));
}

#[test]
fn host_bits_in_snapshot_entry_are_rejected() {
    // Loading must reject malformed CIDR entries rather than silently
    // dropping them; an entry with host bits set does not parse strictly.
    let doc = IndexDocument {
        v4_entries: vec![("10.0.0.1/8".to_string(), IpCategory::Vpn)],
        v6_entries: vec![],
        metadata: vec![],
        stats: LookupStats::default(),
    };
    assert!(from_document(doc).is_err());
}

#[test]
fn stats_and_metadata_survive_the_roundtrip() {
    let tree = sample_tree();
    let doc = to_document(&tree);
    assert_eq!(doc.stats.total_lookups, 0);
    let rebuilt = from_document(doc).unwrap();
    assert_eq!(rebuilt.stats().total_lookups, 0);
    assert_eq!(rebuilt.metadata().len(), 0);
}
