//! The background file mirror: per-category source URLs, local mirror
//! paths, and the decision when a freshly downloaded file replaces the
//! local copy. The downloading and file shuffling are the caller's; the
//! replacement decision is verified here.

use vstd::prelude::*;

verus! {

/// Configuration for the background updater.
#[derive(Debug, Clone)]
pub struct BackgroundUpdaterConfig {
    /// Remote URL for the VPN list.
    pub vpn_url: String,
    /// Remote URL for HTTP proxies.
    pub http_proxy_url: String,
    /// Remote URL for SOCKS4 proxies.
    pub socks4_proxy_url: String,
    /// Remote URL for SOCKS5 proxies.
    pub socks5_proxy_url: String,
    /// Remote URL for Tor exit nodes.
    pub tor_exit_nodes_url: String,
    /// How often to check for updates (seconds).
    pub interval_secs: u64,
    /// Local file paths, one per list.
    pub vpn_path: String,
    pub http_proxy_path: String,
    pub socks4_proxy_path: String,
    pub socks5_proxy_path: String,
    pub tor_exit_nodes_path: String,
}

/// Main background updater struct.
pub struct BackgroundUpdater {
    pub config: BackgroundUpdaterConfig,
}

impl BackgroundUpdater {
    /// Create a new BackgroundUpdater with the given configuration.
    pub fn new(config: BackgroundUpdaterConfig) -> (r: Self)
        ensures
            r.config == config,
    {
        BackgroundUpdater { config }
    }
}

/// Whether a downloaded file replaces the local copy: always when no
/// local copy exists, and otherwise unless the comparison positively
/// found the two identical. A failed comparison replaces, erring towards
/// fresh data.
pub fn should_replace(local_exists: bool, files_differ: Option<bool>) -> (r: bool)
    ensures
        r == (!local_exists || files_differ != Some(false)),
{
    if !local_exists {
        true
    } else {
        match files_differ {
            Some(differ) => differ,
            None => true,
        }
    }
}

} // verus!
