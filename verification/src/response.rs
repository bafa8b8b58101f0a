//! Threat assessment outcomes: the threat entities, the response action
//! policy, and the plain response bodies the HTTP layer renders.

use vstd::prelude::*;
use crate::net::IpAddress;
use crate::types::IpCategory;

verus! {

/// The threat classes a finding can carry.
#[derive(Debug, Clone, Copy, PartialEq, Eq, Structural)]
pub enum ThreatType {
    VpnOrDatacenter,
    Proxy,
    TorExitNode,
}

/// A single threat finding.
#[derive(Debug, Clone)]
pub struct ThreatFinding {
    pub threat_type: ThreatType,
    pub description: String,
}

/// A threat assessment of one address: an overall score from 0 to 100 and
/// its findings.
#[derive(Debug, Clone)]
pub struct ThreatScore {
    pub score: u8,
    pub findings: Vec<ThreatFinding>,
    pub ip: IpAddress,
}

impl ThreatScore {
    /// A clean score for the given address.
    pub fn new(ip: IpAddress) -> (r: Self)
        ensures
            r.score == 0,
            r.findings@.len() == 0,
            r.ip == ip,
    {
        ThreatScore { score: 0, findings: Vec::new(), ip }
    }
}

/// The recommended response action for a given threat level.
#[derive(Debug, Clone, Copy, PartialEq, Eq, Structural)]
pub enum ResponseAction {
    /// Allow the request without any challenges.
    Allow,
    /// Monitor the request but allow it to proceed.
    Monitor,
    /// Present a challenge to the user.
    Challenge,
    /// Redirect the user to a different page.
    Redirect,
    /// Block the request entirely.
    Block,
}

/// Configuration for response action determination.
#[derive(Debug, Clone)]
pub struct ResponseActionConfig {
    /// Threshold for Monitor action (0-100).
    pub monitor_threshold: u8,
    /// Threshold for Challenge action (0-100).
    pub challenge_threshold: u8,
    /// Threshold for Redirect action (0-100).
    pub redirect_threshold: u8,
    /// Threat types that always trigger a block.
    pub block_immediate: Vec<ThreatType>,
    /// Whether to only monitor, never block.
    pub monitor_mode: bool,
}

impl Default for ResponseActionConfig {
    fn default() -> (r: Self)
        ensures
            r.monitor_threshold == 20,
            r.challenge_threshold == 50,
            r.redirect_threshold == 75,
            r.block_immediate@ == seq![ThreatType::TorExitNode],
            r.monitor_mode == false,
    {
        let mut block_immediate: Vec<ThreatType> = Vec::new();
        block_immediate.push(ThreatType::TorExitNode);
        proof {
            assert(block_immediate@ =~= seq![ThreatType::TorExitNode]);
        }
        ResponseActionConfig {
            monitor_threshold: 20,
            challenge_threshold: 50,
            redirect_threshold: 75,
            block_immediate,
            monitor_mode: false,
        }
    }
}

/// Whether some finding's threat type is on the immediate-block list.
pub open spec fn has_immediate(config: ResponseActionConfig, ts: ThreatScore) -> bool {
    exists|i: int|
        0 <= i < ts.findings@.len() && config.block_immediate@.contains(
            (#[trigger] ts.findings@[i]).threat_type,
        )
}

/// The action the policy yields for an assessment: immediate-block threat
/// types dominate, monitor mode never blocks, and otherwise the score is
/// laddered through the three thresholds.
pub open spec fn action_model(config: ResponseActionConfig, ts: ThreatScore) -> ResponseAction {
    if has_immediate(config, ts) {
        if config.monitor_mode {
            ResponseAction::Monitor
        } else {
            ResponseAction::Block
        }
    } else if config.monitor_mode {
        ResponseAction::Monitor
    } else if ts.score > config.redirect_threshold {
        ResponseAction::Redirect
    } else if ts.score > config.challenge_threshold {
        ResponseAction::Challenge
    } else if ts.score > config.monitor_threshold {
        ResponseAction::Monitor
    } else {
        ResponseAction::Allow
    }
}

/// Whether a threat type list holds the given type.
fn contains_threat(v: &Vec<ThreatType>, t: ThreatType) -> (r: bool)
    ensures
        r == v@.contains(t),
{
    let mut i: usize = 0;
    let n = v.len();
    while i < n
        invariant
            i <= n,
            n == v@.len(),
            forall|j: int| 0 <= j < i ==> v@[j] != t,
        decreases n - i,
    {
        if v[i] == t {
            assert(v@[i as int] == t);
            return true;
        }
        i += 1;
    }
    proof {
        if v@.contains(t) {
            let j = choose|j: int| 0 <= j < v@.len() && v@[j] == t;
            assert(false);
        }
    }
    false
}

/// Service for determining the appropriate response action based on a
/// threat assessment.
pub struct ResponseActionService {
    config: ResponseActionConfig,
}

impl ResponseActionService {
    /// The policy in force.
    pub closed spec fn config_view(self) -> ResponseActionConfig {
        self.config
    }

    /// Creates a service with the default policy.
    pub fn new() -> (r: Self)
        ensures
            r.config_view().monitor_threshold == 20,
            r.config_view().challenge_threshold == 50,
            r.config_view().redirect_threshold == 75,
            r.config_view().block_immediate@ == seq![ThreatType::TorExitNode],
            r.config_view().monitor_mode == false,
    {
        Self::with_config(ResponseActionConfig::default())
    }

    /// Creates a service with a custom policy.
    pub fn with_config(config: ResponseActionConfig) -> (r: Self)
        ensures
            r.config_view() == config,
    {
        ResponseActionService { config }
    }

    /// Determines the recommended response action for an assessment.
    pub fn determine_action(&self, threat_score: &ThreatScore) -> (r: ResponseAction)
        ensures
            r == action_model(self.config_view(), *threat_score),
    {
        let mut i: usize = 0;
        let n = threat_score.findings.len();
        while i < n
            invariant
                i <= n,
                n == threat_score.findings@.len(),
                forall|j: int|
                    0 <= j < i ==> !self.config.block_immediate@.contains(
                        (#[trigger] threat_score.findings@[j]).threat_type,
                    ),
            decreases n - i,
        {
            if contains_threat(&self.config.block_immediate, threat_score.findings[i].threat_type)
             {
                proof {
                    assert(self.config.block_immediate@.contains(
                        threat_score.findings@[i as int].threat_type,
                    ));
                }
                return if self.config.monitor_mode {
                    ResponseAction::Monitor
                } else {
                    ResponseAction::Block
                };
            }
            i += 1;
        }
        proof {
            assert(!has_immediate(self.config_view(), *threat_score));
        }
        if self.config.monitor_mode {
            return ResponseAction::Monitor;
        }
        let score = threat_score.score;
        if score > self.config.redirect_threshold {
            ResponseAction::Redirect
        } else if score > self.config.challenge_threshold {
            ResponseAction::Challenge
        } else if score > self.config.monitor_threshold {
            ResponseAction::Monitor
        } else {
            ResponseAction::Allow
        }
    }
}

/// The boolean facets of a looked-up category, and its proxy protocol
/// label where one applies.
pub fn category_flags(category: Option<IpCategory>) -> (r: (bool, bool, bool, Option<
    &'static str,
>))
    ensures
        r == (match category {
            Some(IpCategory::Vpn) => (true, false, false, None::<&'static str>),
            Some(IpCategory::ProxyHttp) => (false, true, false, Some("http")),
            Some(IpCategory::ProxySocks4) => (false, true, false, Some("socks4")),
            Some(IpCategory::ProxySocks5) => (false, true, false, Some("socks5")),
            Some(IpCategory::TorExitNode) => (false, false, true, None::<&'static str>),
            None => (false, false, false, None::<&'static str>),
        }),
{
    match category {
        Some(IpCategory::Vpn) => (true, false, false, None),
        Some(IpCategory::ProxyHttp) => (false, true, false, Some("http")),
        Some(IpCategory::ProxySocks4) => (false, true, false, Some("socks4")),
        Some(IpCategory::ProxySocks5) => (false, true, false, Some("socks5")),
        Some(IpCategory::TorExitNode) => (false, false, true, None),
        None => (false, false, false, None),
    }
}

/// The body of a health check response.
#[derive(Debug, Clone)]
pub struct HealthResponse {
    pub status: String,
    pub version: String,
}

/// The body of a Tor lookup response.
#[derive(Debug, Clone, Copy, PartialEq, Eq, Structural)]
pub struct TorResponse {
    pub is_tor_exit_node: bool,
}

/// The body of a proxy lookup response.
#[derive(Debug, Clone)]
pub struct ProxyResponse {
    pub is_proxy: bool,
    pub proxy_type: Option<&'static str>,
}

} // verus!
