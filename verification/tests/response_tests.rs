use ip_lookup::net::{parse_ip, IpAddress};
use ip_lookup::response::{
    category_flags, ResponseAction, ResponseActionConfig, ResponseActionService, ThreatFinding,
    ThreatScore, ThreatType,
};
use ip_lookup::types::IpCategory;

fn ip(s: &str) -> IpAddress {
    parse_ip(s).unwrap()
}

#[test]
fn test_determine_action() {
    let service = ResponseActionService::new();
    let addr = ip("1.1.1.1");

    // Test score ranges
    let test_cases = vec![
        (0, ResponseAction::Allow),
        (10, ResponseAction::Allow),
        (20, ResponseAction::Allow),
        (21, ResponseAction::Monitor),
        (35, ResponseAction::Monitor),
        (50, ResponseAction::Monitor),
        (51, ResponseAction::Challenge),
        (60, ResponseAction::Challenge),
        (75, ResponseAction::Challenge),
        (76, ResponseAction::Redirect),
        (90, ResponseAction::Redirect),
        (100, ResponseAction::Redirect),
    ];

    for (score, expected) in test_cases {
        let test_score = ThreatScore {
            score,
            findings: vec![],
            ip: addr,
        };
        assert_eq!(
            service.determine_action(&test_score),
            expected,
            "Failed for score: {}",
            score
        );
    }

    // Immediate block for Tor exit nodes
    let tor_score = ThreatScore {
        score: 10,
        findings: vec![ThreatFinding {
            threat_type: ThreatType::TorExitNode,
            description: "Tor exit node".to_string(),
        }],
        ip: addr,
    };
    assert_eq!(service.determine_action(&tor_score), ResponseAction::Block);

    // Monitor mode
    let monitor_service = ResponseActionService::with_config(ResponseActionConfig {
        monitor_mode: true,
        ..ResponseActionConfig::default()
    });

    let high_score = ThreatScore {
        score: 100,
        findings: vec![],
        ip: addr,
    };

    assert_eq!(
        monitor_service.determine_action(&high_score),
        ResponseAction::Monitor
    );
}

#[test]
fn monitor_mode_downgrades_immediate_block() {
    let service = ResponseActionService::with_config(ResponseActionConfig {
        monitor_mode: true,
        ..ResponseActionConfig::default()
    });
    let tor_score = ThreatScore {
        score: 10,
        findings: vec![ThreatFinding {
            threat_type: ThreatType::TorExitNode,
            description: "Tor exit node".to_string(),
        }],
        ip: ip("1.1.1.1"),
    };
    assert_eq!(service.determine_action(&tor_score), ResponseAction::Monitor);
}

#[test]
fn category_flags_map_each_category() {
    assert_eq!(
        category_flags(Some(IpCategory::Vpn)),
        (true, false, false, None)
    );
    assert_eq!(
        category_flags(Some(IpCategory::ProxyHttp)),
        (false, true, false, Some("http"))
    );
    assert_eq!(
        category_flags(Some(IpCategory::ProxySocks4)),
        (false, true, false, Some("socks4"))
    );
    assert_eq!(
        category_flags(Some(IpCategory::ProxySocks5)),
        (false, true, false, Some("socks5"))
    );
    assert_eq!(
        category_flags(Some(IpCategory::TorExitNode)),
        (false, false, true, None)
    );
    assert_eq!(category_flags(None), (false, false, false, None));
}

#[test]
fn threat_score_starts_clean() {
    let score = ThreatScore::new(ip("9.9.9.9"));
    assert_eq!(score.score, 0);
    assert!(score.findings.is_empty());
}
