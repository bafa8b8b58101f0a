use ip_lookup::loader::IpRangeSource;
use ip_lookup::net::parse_ip;
use ip_lookup::service::{merge_outcomes, IpLookupService, IpLookupServiceConfig, SourceOutcome};
use ip_lookup::types::{IpCategory, IpRange, SourceFormat};

fn config() -> IpLookupServiceConfig {
    IpLookupServiceConfig {
        data_dir: "data/test_ranges".to_string(),
        check_updates: true,
        update_interval_secs: 3600,
        max_cache_age_secs: 86400,
        sources: vec![IpRangeSource {
            url: "https://example.com/ip_ranges.txt".to_string(),
            category: IpCategory::Vpn,
            name: "test".to_string(),
            enabled: true,
            format: SourceFormat::Default,
        }],
    }
}

fn record(network: &str, category: IpCategory) -> IpRange {
    IpRange::new(
        network.to_string(),
        category,
        "test".to_string(),
        SourceFormat::Default,
    )
}

#[test]
fn test_service_update() {
    let service = IpLookupService::new(config());

    // Initial tree should be empty
    assert_eq!(service.tree().len(), (0, 0));
    assert_eq!(service.tree().total_len(), 0);

    let test_ranges = vec![
        record("192.168.1.0/24", IpCategory::Vpn),
        record("2001:db8::/32", IpCategory::Vpn),
    ];

    service.update_tree(test_ranges).unwrap();

    let (v4_count, v6_count) = service.tree().len();
    assert!(v4_count > 0 || v6_count > 0, "Tree should contain some entries");
    assert_eq!(service.tree().total_len(), v4_count + v6_count);
}

#[test]
fn partial_failure_keeps_other_sources_data() {
    let service = IpLookupService::new(config());
    let outcomes = vec![
        SourceOutcome {
            name: "vpn-feed".to_string(),
            result: Ok(vec![record("10.0.0.0/8", IpCategory::Vpn)]),
        },
        SourceOutcome {
            name: "tor-feed".to_string(),
            result: Err("connection refused".to_string()),
        },
        SourceOutcome {
            name: "proxy-feed".to_string(),
            result: Ok(vec![record("198.51.100.0/24", IpCategory::ProxyHttp)]),
        },
    ];

    let report = service.apply_cycle(outcomes);

    // Exactly one aggregated failure is reported.
    let errors = report.unwrap_err();
    assert_eq!(errors.len(), 1);
    assert_eq!(
        errors[0],
        "Failed to update source tor-feed: connection refused"
    );

    // The two successful sources' data is present in the post-cycle index.
    let tree = service.tree();
    assert_eq!(
        tree.lookup(parse_ip("10.1.2.3").unwrap()),
        Some(IpCategory::Vpn)
    );
    assert_eq!(
        tree.lookup(parse_ip("198.51.100.9").unwrap()),
        Some(IpCategory::ProxyHttp)
    );
}

#[test]
fn wholly_failed_cycle_keeps_previous_snapshot() {
    let service = IpLookupService::new(config());
    service
        .update_tree(vec![record("10.0.0.0/8", IpCategory::Vpn)])
        .unwrap();

    let outcomes = vec![SourceOutcome {
        name: "vpn-feed".to_string(),
        result: Err("timeout".to_string()),
    }];
    let report = service.apply_cycle(outcomes);
    assert!(report.is_err());

    // No data was gathered, so the previous snapshot stays in place.
    assert_eq!(
        service.tree().lookup(parse_ip("10.1.2.3").unwrap()),
        Some(IpCategory::Vpn)
    );
}

#[test]
fn successful_cycle_reports_ok() {
    let service = IpLookupService::new(config());
    let outcomes = vec![SourceOutcome {
        name: "vpn-feed".to_string(),
        result: Ok(vec![record("10.0.0.0/8", IpCategory::Vpn)]),
    }];
    assert!(service.apply_cycle(outcomes).is_ok());
}

#[test]
fn merge_outcomes_concatenates_and_counts() {
    let outcomes = vec![
        SourceOutcome {
            name: "a".to_string(),
            result: Ok(vec![record("10.0.0.0/8", IpCategory::Vpn)]),
        },
        SourceOutcome {
            name: "b".to_string(),
            result: Err("boom".to_string()),
        },
        SourceOutcome {
            name: "c".to_string(),
            result: Ok(vec![
                record("192.168.0.0/16", IpCategory::ProxyHttp),
                record("172.16.0.0/12", IpCategory::ProxySocks4),
            ]),
        },
        SourceOutcome {
            name: "d".to_string(),
            result: Err("bust".to_string()),
        },
    ];
    let (all, errors) = merge_outcomes(outcomes);
    assert_eq!(all.len(), 3);
    assert_eq!(all[0].network, "10.0.0.0/8");
    assert_eq!(all[1].network, "192.168.0.0/16");
    assert_eq!(all[2].network, "172.16.0.0/12");
    assert_eq!(errors.len(), 2);
    assert_eq!(errors[0], "Failed to update source b: boom");
    assert_eq!(errors[1], "Failed to update source d: bust");
}
