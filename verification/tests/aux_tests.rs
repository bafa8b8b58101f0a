use ip_lookup::alert::{init, AlertConfig, AlertState};
use ip_lookup::fileops::{file_sha256, files_differ};
use ip_lookup::loader::IpRangeLoaderConfig;
use ip_lookup::metrics::Metrics;
use ip_lookup::net::{
    ip_host_cidr, parse_ip, parse_net_loose, parse_net_strict, net_to_string, IpAddress, IpNet,
};
use ip_lookup::updater::{should_replace, BackgroundUpdater, BackgroundUpdaterConfig};
use ip_lookup::validate::{extract_client_ip, validate_ip, IpValidationError};

#[test]
fn test_alerting_flow() {
    let config = AlertConfig::default();
    let mut monitor = init();

    // Normal operation
    monitor.record_success();
    assert_eq!(monitor.failures, 0);
    assert_eq!(monitor.state, AlertState::Normal);

    // Failure threshold
    for i in 1..=config.failure_threshold {
        monitor.record_failure(&config);
        assert_eq!(monitor.failures, i);
    }

    // Should be in pending state now
    assert_eq!(monitor.state, AlertState::Pending);

    // The pending check fires the alert
    assert!(monitor.check_pending(&config));
    assert_eq!(monitor.state, AlertState::Firing);

    // Recovery
    monitor.record_success();
    assert_eq!(monitor.state, AlertState::Normal);
}

#[test]
fn pending_alert_resolves_when_recovered() {
    let config = AlertConfig::default();
    let mut monitor = init();
    for _ in 0..config.failure_threshold {
        monitor.record_failure(&config);
    }
    assert_eq!(monitor.state, AlertState::Pending);
    monitor.failures = 0;
    assert!(!monitor.check_pending(&config));
    assert_eq!(monitor.state, AlertState::Normal);
}

#[test]
fn cooldown_resets_firing_alert() {
    let config = AlertConfig::default();
    let mut monitor = init();
    for _ in 0..config.failure_threshold {
        monitor.record_failure(&config);
    }
    monitor.check_pending(&config);
    assert_eq!(monitor.state, AlertState::Firing);
    monitor.cooldown_expired();
    assert_eq!(monitor.state, AlertState::Normal);
}

#[test]
fn metrics_count_validations_and_caches() {
    let mut m = Metrics::new();
    m.record_validation_metrics(true, None, 12);
    m.record_validation_metrics(false, Some("expired"), 5);
    m.record_validation_metrics(false, Some("expired"), 3);
    m.record_validation_metrics(false, None, 1);
    assert_eq!(m.api_key_validation_total, 4);
    assert_eq!(m.api_key_validation_success, 1);
    assert_eq!(m.api_key_validation_duration_count, 4);
    assert_eq!(m.api_key_validation_duration_ms_total, 21);
    assert_eq!(m.api_key_validation_failed.len(), 2);
    assert!(m
        .api_key_validation_failed
        .iter()
        .any(|e| e.0 == "expired" && e.1 == 2));
    assert!(m
        .api_key_validation_failed
        .iter()
        .any(|e| e.0 == "unknown" && e.1 == 1));

    m.record_circuit_breaker_state("open");
    m.record_circuit_breaker_state("open");
    m.record_circuit_breaker_state("closed");
    assert!(m
        .circuit_breaker_state_changes
        .iter()
        .any(|e| e.0 == "open" && e.1 == 2));
    m.record_circuit_breaker_rejection();
    assert_eq!(m.circuit_breaker_rejected, 1);

    m.record_cache_hit();
    m.record_cache_hit();
    m.record_cache_miss();
    assert_eq!(m.cache_hits, 2);
    assert_eq!(m.cache_misses, 1);
}

#[test]
fn sha256_hex_of_known_content() {
    // The digest of empty content is a fixed, well-known value; the hex
    // rendering must match it exactly.
    let empty: Vec<u8> = Vec::new();
    assert_eq!(
        file_sha256(&empty),
        "e3b0c44298fc1c149afbf4c8996fb92427ae41e4649b934ca495991b7852b855"
    );
    let abc: Vec<u8> = vec![b'a', b'b', b'c'];
    assert_eq!(
        file_sha256(&abc),
        "ba7816bf8f01cfea414140de5dae2223b00361a396177a9cb410ff61f20015ad"
    );
}

#[test]
fn files_differ_compares_digests() {
    let a: Vec<u8> = b"one content".to_vec();
    let b: Vec<u8> = b"another content".to_vec();
    let c: Vec<u8> = b"one content".to_vec();
    assert!(files_differ(&a, &b));
    assert!(!files_differ(&a, &c));
}

#[test]
fn should_replace_decision() {
    assert!(should_replace(false, None));
    assert!(should_replace(false, Some(false)));
    assert!(should_replace(true, Some(true)));
    assert!(!should_replace(true, Some(false)));
    assert!(should_replace(true, None));
}

#[test]
fn background_updater_keeps_config() {
    let config = BackgroundUpdaterConfig {
        vpn_url: "https://example.com/vpn.txt".to_string(),
        http_proxy_url: "https://example.com/http.txt".to_string(),
        socks4_proxy_url: "https://example.com/socks4.txt".to_string(),
        socks5_proxy_url: "https://example.com/socks5.txt".to_string(),
        tor_exit_nodes_url: "https://example.com/exit-addresses".to_string(),
        interval_secs: 600,
        vpn_path: "data/vpns/ipv4.txt".to_string(),
        http_proxy_path: "data/proxies/http.txt".to_string(),
        socks4_proxy_path: "data/proxies/socks4.txt".to_string(),
        socks5_proxy_path: "data/proxies/socks5.txt".to_string(),
        tor_exit_nodes_path: "data/tor/exit-addresses.txt".to_string(),
    };
    let updater = BackgroundUpdater::new(config);
    assert_eq!(updater.config.interval_secs, 600);
    assert_eq!(updater.config.vpn_url, "https://example.com/vpn.txt");
}

#[test]
fn validate_ip_rejects_special_ranges() {
    let cases = [
        ("0.0.0.0", "unspecified address (0.0.0.0)"),
        ("127.0.0.1", "loopback address (127.0.0.0/8)"),
        ("10.1.2.3", "private address range"),
        ("172.16.0.1", "private address range"),
        ("192.168.1.1", "private address range"),
        ("169.254.0.1", "IPv4 link-local address (169.254.0.0/16)"),
        ("192.0.2.1", "documentation address (TEST-NET-1/2/3)"),
        ("198.51.100.1", "documentation address (TEST-NET-1/2/3)"),
        ("203.0.113.1", "documentation address (TEST-NET-1/2/3)"),
        ("::", "unspecified address (::)"),
        ("::1", "loopback address (::1)"),
        ("fe80::1", "IPv6 link-local address (fe80::/10)"),
        ("2001:db8::1", "documentation address (2001:db8::/32)"),
    ];
    for (addr, message) in cases {
        let result = validate_ip(parse_ip(addr).unwrap());
        match result {
            Err(IpValidationError::NotAllowed(m)) => {
                assert_eq!(m, message, "wrong message for {}", addr)
            }
            other => panic!("{} should be rejected, got {:?}", addr, other),
        }
    }
    assert!(validate_ip(parse_ip("8.8.8.8").unwrap()).is_ok());
    assert!(validate_ip(parse_ip("2606:4700::1111").unwrap()).is_ok());
}

#[test]
fn extract_client_ip_prefers_forwarded_for() {
    let r = extract_client_ip(Some(" 9.9.9.9 , 10.0.0.1"), Some("8.8.8.8"));
    assert_eq!(r.unwrap(), parse_ip("9.9.9.9").unwrap());

    let r = extract_client_ip(None, Some("8.8.8.8"));
    assert_eq!(r.unwrap(), parse_ip("8.8.8.8").unwrap());

    let r = extract_client_ip(Some("not-an-ip"), None);
    assert!(matches!(r, Err(IpValidationError::InvalidIpAddress(_))));

    let r = extract_client_ip(None, None);
    assert!(matches!(r, Err(IpValidationError::MissingIpHeaders)));
}

#[test]
fn strict_parse_rejects_host_bits() {
    assert_eq!(parse_net_strict("10.0.0.1/8"), None);
    assert_eq!(parse_net_strict("10.0.0.0"), None);
    assert!(parse_net_strict("10.0.0.0/8").is_some());

    // The lenient parser keeps host bits and accepts bare addresses.
    assert_eq!(
        parse_net_loose("10.0.0.1/8"),
        Some(IpNet::V4 {
            addr: 0x0A000001,
            prefix: 8
        })
    );
    assert_eq!(
        parse_net_loose("10.0.0.1"),
        Some(IpNet::V4 {
            addr: 0x0A000001,
            prefix: 32
        })
    );
}

#[test]
fn network_text_roundtrips() {
    let n = parse_net_strict("192.168.1.0/24").unwrap();
    assert_eq!(net_to_string(&n), "192.168.1.0/24");
    assert_eq!(parse_net_strict(&net_to_string(&n)), Some(n));

    let v6 = parse_net_strict("2001:db8::/32").unwrap();
    assert_eq!(net_to_string(&v6), "2001:db8::/32");

    let a = parse_ip("1.2.3.4").unwrap();
    assert_eq!(ip_host_cidr(&a), "1.2.3.4/32");
    let a6 = parse_ip("2001:db8::1").unwrap();
    assert_eq!(ip_host_cidr(&a6), "2001:db8::1/128");
    assert_eq!(parse_ip("300.0.0.1"), None);
    assert_eq!(parse_ip("1.2.3.4"), Some(IpAddress::V4(0x01020304)));
}

#[test]
fn loader_config_defaults() {
    let c = IpRangeLoaderConfig::default();
    assert_eq!(c.data_dir, "data/ip_ranges");
    assert!(c.check_updates);
    assert_eq!(c.max_cache_age_secs, 86400);
}
