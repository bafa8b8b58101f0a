use ip_lookup::loader::{IpRangeLoader, IpRangeLoaderConfig, IpRangeSource};
use ip_lookup::types::{IpCategory, IpRangeError, IpVersion, SourceFormat};

fn loader() -> IpRangeLoader {
    IpRangeLoader::new(IpRangeLoaderConfig::default())
}

fn source(format: SourceFormat) -> IpRangeSource {
    IpRangeSource {
        url: "https://example.com/feed".to_string(),
        category: IpCategory::Vpn,
        name: "test-source".to_string(),
        enabled: true,
        format,
    }
}

#[test]
fn parse_default_counts_only_valid_lines() {
    let content = "# comment\n\n10.0.0.0/8\ngarbage line\n192.168.1.7\n300.1.2.3\n2001:db8::/32\n";
    let records = loader()
        .parse_ranges(content, &source(SourceFormat::Default))
        .unwrap();
    // 3 valid entries, 3 invalid/comment/blank lines skipped.
    assert_eq!(records.len(), 3);
    assert_eq!(records[0].network, "10.0.0.0/8");
    assert_eq!(records[1].network, "192.168.1.7/32");
    assert_eq!(records[2].network, "2001:db8::/32");
    for r in &records {
        assert_eq!(r.category, IpCategory::Vpn);
        assert_eq!(r.source, "test-source");
        assert_eq!(r.format, SourceFormat::Default);
    }
}

#[test]
fn parse_ip_port_extracts_address() {
    let content = "1.2.3.4:8080\nnonsense\n5.6.7.8:3128\n# note\n9.9.9.9\n";
    let records = loader()
        .parse_ranges(content, &source(SourceFormat::IpPort))
        .unwrap();
    assert_eq!(records.len(), 3);
    assert_eq!(records[0].network, "1.2.3.4/32");
    assert_eq!(records[1].network, "5.6.7.8/32");
    // A line without a port still parses: the whole line is the address.
    assert_eq!(records[2].network, "9.9.9.9/32");
}

#[test]
fn parse_tor_exit_list() {
    let content = "ExitNode ABCDEF1234567890ABCDEF1234567890ABCDEF12\n\
                   Published 2023-01-01 12:00:00\n\
                   LastStatus 2023-01-01 12:00:00\n\
                   ExitAddress 1.2.3.4 2023-01-01 12:00:00\n\
                   ExitAddress bad-address 2023-01-01\n\
                   ExitAddress 2001:db8::1 2023-01-01 12:00:00\n";
    let records = loader()
        .parse_ranges(content, &source(SourceFormat::TorExitList))
        .unwrap();
    assert_eq!(records.len(), 2);
    assert_eq!(records[0].network, "1.2.3.4/32");
    assert_eq!(records[1].network, "2001:db8::1/128");
}

#[test]
fn parse_json_misp_list() {
    let content = r#"{"list": ["10.0.0.0/8", "not a cidr", "192.168.0.0/16", 7]}"#;
    let records = loader()
        .parse_ranges(content, &source(SourceFormat::JsonList))
        .unwrap();
    assert_eq!(records.len(), 2);
    assert_eq!(records[0].network, "10.0.0.0/8");
    assert_eq!(records[1].network, "192.168.0.0/16");
}

#[test]
fn parse_json_root_array() {
    let content = r#"["10.0.0.0/8", "2001:db8::/32"]"#;
    let records = loader()
        .parse_ranges(content, &source(SourceFormat::JsonList))
        .unwrap();
    assert_eq!(records.len(), 2);
    assert_eq!(records[0].network, "10.0.0.0/8");
    assert_eq!(records[1].network, "2001:db8::/32");
}

#[test]
fn parse_json_falls_back_to_plain_text() {
    // Content that claims JSON but is plain CIDR lines still yields
    // correct records through the fallback path.
    let content = "# plain text feed\n10.0.0.0/8\nbad line\n192.168.0.0/16\n";
    let records = loader()
        .parse_ranges(content, &source(SourceFormat::JsonList))
        .unwrap();
    assert_eq!(records.len(), 2);
    assert_eq!(records[0].network, "10.0.0.0/8");
    assert_eq!(records[1].network, "192.168.0.0/16");
}

#[test]
fn parse_json_unrecognized_shape_falls_back() {
    let content = r#"{"items": ["10.0.0.0/8"]}"#;
    let records = loader()
        .parse_ranges(content, &source(SourceFormat::JsonList))
        .unwrap();
    // The JSON shape is unrecognized and no line parses as CIDR.
    assert_eq!(records.len(), 0);
}

#[test]
fn needs_update_checks_age() {
    let l = loader();
    // Default maximum cache age is 86400 seconds.
    assert!(l.needs_update(None, 1_000_000));
    assert!(!l.needs_update(Some(1_000_000 - 86_400), 1_000_000));
    assert!(l.needs_update(Some(1_000_000 - 86_401), 1_000_000));
    // A modification time in the future is not stale.
    assert!(!l.needs_update(Some(2_000_000), 1_000_000));
}

#[test]
fn filename_is_derived_from_category_and_version() {
    let l = loader();
    assert_eq!(
        l.filename_from_url("https://example.com/a", IpCategory::Vpn, IpVersion::V4),
        "vpns_v4.txt"
    );
    assert_eq!(
        l.filename_from_url("https://example.com/b", IpCategory::ProxyHttp, IpVersion::V6),
        "http_proxies_v6.txt"
    );
    assert_eq!(
        l.filename_from_url("https://other.org/c", IpCategory::TorExitNode, IpVersion::V4),
        "tor_exit_nodes_v4.txt"
    );
}

#[test]
fn category_names_and_codes() {
    assert_eq!(IpCategory::Vpn.as_str(), "vpn");
    assert_eq!(IpCategory::ProxyHttp.as_str(), "http_proxy");
    assert_eq!(IpCategory::ProxySocks4.as_str(), "socks4_proxy");
    assert_eq!(IpCategory::ProxySocks5.as_str(), "socks5_proxy");
    assert_eq!(IpCategory::TorExitNode.as_str(), "tor_exit_node");
    for c in [
        IpCategory::Vpn,
        IpCategory::ProxyHttp,
        IpCategory::ProxySocks4,
        IpCategory::ProxySocks5,
        IpCategory::TorExitNode,
    ] {
        assert_eq!(IpCategory::from_code(c.code()), Some(c));
    }
    assert_eq!(IpCategory::from_code(5), None);
    assert_eq!(SourceFormat::default(), SourceFormat::Default);
}

#[test]
fn category_parse_is_case_insensitive() {
    assert_eq!(IpCategory::parse_name("vpn").unwrap(), IpCategory::Vpn);
    assert_eq!(IpCategory::parse_name("VPN").unwrap(), IpCategory::Vpn);
    assert_eq!(IpCategory::parse_name("http").unwrap(), IpCategory::ProxyHttp);
    assert_eq!(IpCategory::parse_name("HTTP_Proxy").unwrap(), IpCategory::ProxyHttp);
    assert_eq!(IpCategory::parse_name("socks4").unwrap(), IpCategory::ProxySocks4);
    assert_eq!(IpCategory::parse_name("socks5_proxy").unwrap(), IpCategory::ProxySocks5);
    assert_eq!(IpCategory::parse_name("tor").unwrap(), IpCategory::TorExitNode);
    assert_eq!(IpCategory::parse_name("tor_exit").unwrap(), IpCategory::TorExitNode);
    assert_eq!(IpCategory::parse_name("Tor_Exit_Node").unwrap(), IpCategory::TorExitNode);
    match IpCategory::parse_name("weird") {
        Err(IpRangeError::UnknownCategory(m)) => {
            assert_eq!(m, "Unknown IP category: weird");
        }
        other => panic!("expected UnknownCategory, got {:?}", other),
    }
}
