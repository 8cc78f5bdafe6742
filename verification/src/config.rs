//! Session configuration as plain values.
//!
//! The configuration is loaded from disk (and the download directory
//! discovered) by the surrounding shell; the core only sees the values.

use vstd::prelude::*;

verus! {

/// Operator-facing configuration of a browsing session.
#[derive(Debug, Clone)]
pub struct BrowserConfig {
    pub theme: String,
    pub custom_css: bool,
    pub animations: bool,
    pub particles: bool,
    pub mascot_enabled: bool,
    pub custom_search: String,
    pub gecko_port: u16,
    pub gecko_path: String,
    pub download_dir: String,
    pub cache_size_mb: u32,
    pub timeout_seconds: u64,
    pub turbo_mode_enabled: bool,
    pub battery_saver_enabled: bool,
}

impl Default for BrowserConfig {
    /// The stock configuration: light theme, all decorations on, the
    /// standard WebDriver port, a half-gigabyte cache and a 30 s
    /// timeout.
    fn default() -> (r: BrowserConfig)
        ensures
            r.theme@ == "kawaii-light"@,
            r.custom_css,
            r.animations,
            r.particles,
            r.mascot_enabled,
            r.custom_search@ == "https://duckduckgo.com/?q="@,
            r.gecko_port == 4444,
            r.gecko_path@ == "geckodriver"@,
            r.download_dir@ == "downloads"@,
            r.cache_size_mb == 512,
            r.timeout_seconds == 30,
            !r.turbo_mode_enabled,
            !r.battery_saver_enabled,
    {
        BrowserConfig {
            theme: "kawaii-light".to_owned(),
            custom_css: true,
            animations: true,
            particles: true,
            mascot_enabled: true,
            custom_search: "https://duckduckgo.com/?q=".to_owned(),
            gecko_port: 4444,
            gecko_path: "geckodriver".to_owned(),
            download_dir: "downloads".to_owned(),
            cache_size_mb: 512,
            timeout_seconds: 30,
            turbo_mode_enabled: false,
            battery_saver_enabled: false,
        }
    }
}

} // verus!
