use ip_lookup::detect::{ProxyDetector, TorDetector, VpnDetector};
use ip_lookup::net::{parse_ip, IpAddress};

fn ip(s: &str) -> IpAddress {
    parse_ip(s).expect("address must parse")
}

fn holds(v: &Vec<IpAddress>, a: IpAddress) -> bool {
    v.iter().any(|x| *x == a)
}

#[test]
fn test_load_exit_nodes() {
    let content = "# This is a comment\n\
            ExitNode ABCDEF1234567890ABCDEF1234567890ABCDEF12\n\
            ExitAddress 1.2.3.4 2023-01-01 12:00:00\n\
            ExitNode FEDCBA0987654321FEDCBA0987654321FEDCBA09\n\
            ExitAddress 5.6.7.8 2023-01-01 12:00:00\n\
            ExitAddress 2001:db8::1 2023-01-01 12:00:00\n\
            # Another comment\n\
            ExitAddress 1.2.3.4 2023-01-02 12:00:00\n\
            ExitAddress invalid-ip 2023-01-01 12:00:00\n";

    let exit_nodes = TorDetector::load_exit_nodes(content);

    assert!(holds(&exit_nodes, ip("1.2.3.4")));
    assert!(holds(&exit_nodes, ip("5.6.7.8")));
    assert!(holds(&exit_nodes, ip("2001:db8::1")));
    // 3 unique IPs: 1.2.3.4, 5.6.7.8, 2001:db8::1
    assert_eq!(exit_nodes.len(), 3);
}

#[test]
fn test_is_tor_exit_node() {
    let content = "ExitAddress 1.2.3.4 2023-01-01 12:00:00\nExitAddress 2001:db8::1 2023-01-01 12:00:00";
    let detector = TorDetector::from_content(content);

    assert!(detector.is_tor_exit_node(ip("1.2.3.4")));
    assert!(detector.is_tor_exit_node(ip("2001:db8::1")));
    assert!(!detector.is_tor_exit_node(ip("8.8.8.8")));
}

#[test]
fn test_proxy_detection() {
    let detector = ProxyDetector::from_contents(
        "1.1.1.1:8080\n2.2.2.2:3128\n",
        "3.3.3.3:1080\n",
        "4.4.4.4:1080\n",
    );

    // HTTP proxy detection
    assert_eq!(detector.check_proxy(ip("1.1.1.1")), Some("HTTP/HTTPS"));
    assert_eq!(detector.check_proxy(ip("2.2.2.2")), Some("HTTP/HTTPS"));

    // SOCKS4 proxy detection
    assert_eq!(detector.check_proxy(ip("3.3.3.3")), Some("SOCKS4"));

    // SOCKS5 proxy detection
    assert_eq!(detector.check_proxy(ip("4.4.4.4")), Some("SOCKS5"));

    // Non-proxy IP
    assert_eq!(detector.check_proxy(ip("8.8.8.8")), None);

    // is_proxy (any type)
    assert!(detector.is_proxy(ip("1.1.1.1")));
    assert!(!detector.is_proxy(ip("8.8.8.8")));
}

#[test]
fn test_range_proxy_detection() {
    let detector = ProxyDetector::from_contents(
        "1.1.1.1:8080\n2.2.2.2:3128\n",
        "3.3.3.3:1080\n",
        "4.4.4.4:1080\n",
    );

    // Range containing an HTTP proxy
    assert_eq!(detector.is_range_proxy("1.1.1.0/24"), Some(true));

    // Range containing a SOCKS4 proxy
    assert_eq!(detector.is_range_proxy("3.3.3.0/24"), Some(true));

    // Range containing a SOCKS5 proxy
    assert_eq!(detector.is_range_proxy("4.4.4.0/24"), Some(true));

    // Range with no proxies
    assert_eq!(detector.is_range_proxy("8.8.8.0/24"), Some(false));

    // Invalid range
    assert_eq!(detector.is_range_proxy("invalid"), None);
}

#[test]
fn test_vpn_detection() {
    let detector = VpnDetector::from_content("");

    let test_cases = [("1.1.1.1", false), ("8.8.8.8", false)];

    for (input, expected) in test_cases.iter() {
        let result = detector.is_vpn_or_datacenter(ip(input));
        assert_eq!(result, *expected, "Mismatch for IP: {}", input);

        let result = detector.is_range_vpn_or_datacenter(input);
        match result {
            Some(found) => assert_eq!(found, *expected, "Mismatch for network: {}", input),
            None => panic!("Failed to check network: {}", input),
        }
    }
}

#[test]
fn test_performance() {
    let detector = VpnDetector::from_content("10.0.0.0/8\n172.16.0.0/12\n192.168.0.0/16\n");
    let start = std::time::Instant::now();
    detector.is_vpn_or_datacenter(ip("1.1.1.1"));
    let duration = start.elapsed();
    assert!(
        duration < std::time::Duration::from_millis(10),
        "Lookup took too long"
    );
}

#[test]
fn vpn_detector_matches_ranges_and_overlaps() {
    let detector = VpnDetector::from_content("# datacenter feed\n10.0.0.0/8\n203.0.113.7\n");
    assert!(detector.is_vpn_or_datacenter(ip("10.1.2.3")));
    assert!(detector.is_vpn_or_datacenter(ip("203.0.113.7")));
    assert!(!detector.is_vpn_or_datacenter(ip("203.0.113.8")));

    // Exact copy of a stored network.
    assert_eq!(detector.is_range_vpn_or_datacenter("10.0.0.0/8"), Some(true));
    // A subnet of a stored network overlaps it.
    assert_eq!(detector.is_range_vpn_or_datacenter("10.5.0.0/16"), Some(true));
    // A supernet of a stored network overlaps it.
    assert_eq!(detector.is_range_vpn_or_datacenter("0.0.0.0/0"), Some(true));
    // A small clean range is scanned address by address.
    assert_eq!(
        detector.is_range_vpn_or_datacenter("198.51.100.0/24"),
        Some(false)
    );
    // A small range holding one flagged address is caught by the scan.
    assert_eq!(
        detector.is_range_vpn_or_datacenter("203.0.113.0/24"),
        Some(true)
    );
}
