//! The alerting state machine for repeated validation failures: normal
//! until a threshold of consecutive failures, then pending, then firing
//! until recovery or cooldown. The surrounding timers are driven by the
//! caller; every transition is decided and verified here.

use vstd::prelude::*;

verus! {

/// The alert's state.
#[derive(Debug, Clone, Copy, PartialEq, Eq, Structural)]
pub enum AlertState {
    Normal,
    Pending,
    Firing,
}

/// Configuration for alerting thresholds.
#[derive(Debug, Clone)]
pub struct AlertConfig {
    /// Number of consecutive failures before alerting.
    pub failure_threshold: u32,
    /// Seconds to wait before sending an alert.
    pub pending_secs: u64,
    /// Cooldown period in seconds after an alert is resolved.
    pub cooldown_secs: u64,
}

impl Default for AlertConfig {
    fn default() -> (r: Self)
        ensures
            r.failure_threshold == 5,
            r.pending_secs == 300,
            r.cooldown_secs == 1800,
    {
        AlertConfig { failure_threshold: 5, pending_secs: 300, cooldown_secs: 1800 }
    }
}

/// The alerting state: consecutive failures seen, and the alert phase.
#[derive(Debug, Clone, Copy, PartialEq, Eq, Structural)]
pub struct AlertMonitor {
    pub failures: u32,
    pub state: AlertState,
}

/// Initialize the alerting system: no failures, normal state.
pub fn init() -> (r: AlertMonitor)
    ensures
        r.failures == 0,
        r.state == AlertState::Normal,
{
    AlertMonitor { failures: 0, state: AlertState::Normal }
}

impl AlertMonitor {
    /// Record a successful validation: the failure streak resets and any
    /// alert state returns to normal.
    pub fn record_success(&mut self)
        ensures
            final(self).failures == 0,
            final(self).state == AlertState::Normal,
    {
        self.failures = 0;
        self.state = AlertState::Normal;
    }

    /// Record a failed validation: the streak grows, and from the normal
    /// state reaching the threshold enters the pending state; the caller
    /// must then schedule a pending check after the configured delay, and
    /// is told so by the result.
    pub fn record_failure(&mut self, config: &AlertConfig) -> (schedule: bool)
        ensures
            final(self).failures == (if old(self).failures < u32::MAX {
                old(self).failures + 1
            } else {
                old(self).failures as int
            }),
            schedule == (old(self).state == AlertState::Normal && final(self).failures
                >= config.failure_threshold),
            final(self).state == (if schedule {
                AlertState::Pending
            } else {
                old(self).state
            }),
    {
        if self.failures < u32::MAX {
            self.failures = self.failures + 1;
        }
        if (match self.state {
            AlertState::Normal => true,
            _ => false,
        }) && self.failures >= config.failure_threshold {
            self.state = AlertState::Pending;
            true
        } else {
            false
        }
    }

    /// The pending check, run after the configured delay: still over the
    /// threshold and not yet firing, the alert fires; recovered while
    /// pending, the state returns to normal.
    pub fn check_pending(&mut self, config: &AlertConfig) -> (fire: bool)
        ensures
            final(self).failures == old(self).failures,
            fire == (old(self).failures >= config.failure_threshold && old(self).state
                != AlertState::Firing),
            final(self).state == (if fire {
                AlertState::Firing
            } else if old(self).state == AlertState::Pending {
                AlertState::Normal
            } else {
                old(self).state
            }),
    {
        let firing = match self.state {
            AlertState::Firing => true,
            _ => false,
        };
        if self.failures >= config.failure_threshold && !firing {
            self.state = AlertState::Firing;
            true
        } else {
            if (match self.state {
                AlertState::Pending => true,
                _ => false,
            }) {
                self.state = AlertState::Normal;
            }
            false
        }
    }

    /// The cooldown check, run after the configured cooldown: an alert
    /// still firing resets to normal.
    pub fn cooldown_expired(&mut self)
        ensures
            final(self).failures == old(self).failures,
            final(self).state == (if old(self).state == AlertState::Firing {
                AlertState::Normal
            } else {
                old(self).state
            }),
    {
        if (match self.state {
            AlertState::Firing => true,
            _ => false,
        }) {
            self.state = AlertState::Normal;
        }
    }
}

} // verus!
