//! A verified IP-category lookup engine.
//!
//! The crate ingests IP/CIDR threat-intelligence feeds (VPN and datacenter
//! ranges, HTTP/SOCKS proxy lists, Tor exit-node lists) in several text and
//! JSON formats, merges them into a dual-stack longest-prefix-match index,
//! and answers point lookups while a background refresh cycle atomically
//! replaces the active snapshot.

pub mod alert;
pub mod detect;
pub mod fileops;
pub mod loader;
pub mod metrics;
pub mod net;
pub mod response;
pub mod service;
pub mod snapshot;
pub mod table;
pub mod text;
pub mod time;
pub mod tree;
pub mod types;
pub mod updater;
pub mod validate;
