//! Session resource core for a scripted browser-automation client.
//!
//! The library centres on three independent subsystems that every
//! automation session shares:
//!
//! * a dual-tier bounded content cache with least-recently-used eviction
//!   ([`cache::BoundedCache`], [`cache::BrowserCache`]),
//! * a bounded admission pool that caps concurrent outbound sessions and
//!   queues waiters first-in first-out ([`pool::ConnectionPool`]),
//! * a bounded recorder of observed network requests, gated by filter
//!   matching ([`monitor::NetworkMonitor`]).
//!
//! Each operation is specified against a mathematical model of the
//! structure's contents, and the capacity, eviction-order and admission
//! invariants are machine-checked. The surrounding plumbing (WebDriver
//! traffic, terminal output, file I/O) lives outside this crate; callers
//! hand in plain values and get plain values back.

pub mod adblock;
pub mod anime;
pub mod automation;
pub mod cache;
pub mod cache_laws;
pub mod capture;
pub mod config;
pub mod devtools;
pub mod errors;
pub mod extensions;
pub mod framing;
pub mod lru_model;
pub mod lru_store;
pub mod monitor;
pub mod monitoring;
pub mod net_tools;
pub mod performance;
pub mod pool;
pub mod testing;
pub mod text;
pub mod themes;
pub mod turbo;
pub mod utils;
pub mod vpn;
pub mod workspace;
