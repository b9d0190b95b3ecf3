//! Process settings and their documented defaults.
//!
//! The values arrive from the environment; reading the environment is the
//! surrounding binary's business.  Resolving what arrived against the
//! documented defaults is decided here.

use vstd::prelude::*;

verus! {

/// The default upstream browser-engine control address.
pub open spec fn spec_default_chrome_url() -> Seq<char> {
    "http://127.0.0.1:9222/json/version"@
}

/// The process-wide settings.
pub struct Settings {
    /// Upstream browser-engine control address.
    pub chrome_connection_url: Option<String>,
    /// Cache entry lifetime in seconds; zero disables the cache.
    pub cache_ttl_seconds: u64,
    /// Cache capacity in entries; zero disables the cache.
    pub cache_max_entries: u64,
    /// Listener port.
    pub server_port: u16,
}

impl Settings {
    /// Resolves the environment-sourced overrides against the documented
    /// defaults: engine address `http://127.0.0.1:9222/json/version`,
    /// cache lifetime 600 seconds, cache capacity 1000 entries, port 8080.
    pub fn resolve(
        chrome_connection_url: Option<String>,
        cache_ttl_seconds: Option<u64>,
        cache_max_entries: Option<u64>,
        server_port: Option<u16>,
    ) -> (s: Settings)
        ensures
            match chrome_connection_url {
                Some(u) => s.chrome_connection_url == Some(u),
                None => s.chrome_connection_url matches Some(u) && u@ == spec_default_chrome_url(),
            },
            s.cache_ttl_seconds == (match cache_ttl_seconds {
                Some(t) => t,
                None => 600u64,
            }),
            s.cache_max_entries == (match cache_max_entries {
                Some(m) => m,
                None => 1000u64,
            }),
            s.server_port == (match server_port {
                Some(p) => p,
                None => 8080u16,
            }),
    {
        Settings {
            chrome_connection_url: match chrome_connection_url {
                Some(u) => Some(u),
                None => Some("http://127.0.0.1:9222/json/version".to_owned()),
            },
            cache_ttl_seconds: match cache_ttl_seconds {
                Some(t) => t,
                None => 600,
            },
            cache_max_entries: match cache_max_entries {
                Some(m) => m,
                None => 1000,
            },
            server_port: match server_port {
                Some(p) => p,
                None => 8080,
            },
        }
    }

    /// True when the configuration disables the cache — a documented
    /// degraded mode, not a startup failure.
    pub fn cache_disabled(&self) -> (r: bool)
        ensures
            r == (self.cache_ttl_seconds == 0 || self.cache_max_entries == 0),
    {
        self.cache_ttl_seconds == 0 || self.cache_max_entries == 0
    }
}

} // verus!
