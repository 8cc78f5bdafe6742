use nyan_browser::config::BrowserConfig;
use nyan_browser::errors::{ConfigurationError, FilterError, PoolClosedError};
use nyan_browser::monitoring::PerformanceMonitor as NavigationMonitor;
use nyan_browser::text::{contains_substr, str_eq_ignore_ascii_case, to_lower_char};
use nyan_browser::themes::{KawaiiTheme, ThemeColors, ThemeCustomization, ThemeFonts, ThemeManager};
use nyan_browser::turbo::TurboMode;
use nyan_browser::utils::{KawaiiSpinner, LogMetrics, PerformanceMonitor};
use nyan_browser::vpn::VpnManager;

#[test]
fn default_config_has_the_stock_values() {
    let config = BrowserConfig::default();
    assert_eq!(config.theme, "kawaii-light");
    assert!(config.custom_css);
    assert!(config.animations);
    assert!(config.particles);
    assert!(config.mascot_enabled);
    assert_eq!(config.custom_search, "https://duckduckgo.com/?q=");
    assert_eq!(config.gecko_port, 4444);
    assert_eq!(config.gecko_path, "geckodriver");
    assert_eq!(config.download_dir, "downloads");
    assert_eq!(config.cache_size_mb, 512);
    assert_eq!(config.timeout_seconds, 30);
    assert!(!config.turbo_mode_enabled);
    assert!(!config.battery_saver_enabled);
}

#[test]
fn turbo_mode_toggles_and_keeps_its_level() {
    let mut turbo = TurboMode::new();
    assert!(!turbo.is_enabled());
    turbo.enable();
    assert!(turbo.is_enabled());
    turbo.set_compression_level(7);
    assert_eq!(turbo.compression_level(), 7);
    assert!(turbo.is_enabled());
    turbo.disable();
    assert!(!turbo.is_enabled());
    assert_eq!(turbo.compression_level(), 7);
}

#[test]
fn vpn_tracks_its_connection() {
    let mut vpn = VpnManager::new();
    assert!(!vpn.is_connected());
    vpn.connect();
    assert!(vpn.is_connected());
    vpn.disconnect();
    assert!(!vpn.is_connected());
}

fn sample_theme(name: &str) -> KawaiiTheme {
    KawaiiTheme {
        name: name.to_string(),
        colors: ThemeColors {
            primary: "#e91e63".to_string(),
            secondary: "#f48fb1".to_string(),
            background: "#fafafa".to_string(),
            text: "#333".to_string(),
        },
        fonts: ThemeFonts {
            main: "sans".to_string(),
            headings: "serif".to_string(),
            size: 12,
        },
        mascots: vec!["cat".to_string()],
        animations: true,
    }
}

#[test]
fn theme_manager_loads_exports_and_customizes() {
    let mut themes = ThemeManager::new();
    assert_eq!(themes.export_theme(), None);
    themes.load_theme(sample_theme("pastel"));
    assert_eq!(themes.export_theme(), Some("pastel".to_string()));

    let custom = ThemeCustomization {
        colors: ThemeColors {
            primary: "#000".to_string(),
            secondary: "#111".to_string(),
            background: "#222".to_string(),
            text: "#333".to_string(),
        },
        fonts: ThemeFonts {
            main: "mono".to_string(),
            headings: "mono".to_string(),
            size: 14,
        },
        mascots: Vec::new(),
        animations: false,
    };
    assert!(themes.apply_customizations(custom));
    assert_eq!(themes.export_theme(), Some("pastel".to_string()));

    let mut empty = ThemeManager::new();
    let ignored = ThemeCustomization {
        colors: ThemeColors {
            primary: String::new(),
            secondary: String::new(),
            background: String::new(),
            text: String::new(),
        },
        fonts: ThemeFonts {
            main: String::new(),
            headings: String::new(),
            size: 0,
        },
        mascots: Vec::new(),
        animations: false,
    };
    assert!(!empty.apply_customizations(ignored));
}

#[test]
fn spinner_cycles_through_its_frames() {
    let mut spinner = KawaiiSpinner::new();
    let first = spinner.tick();
    let second = spinner.tick();
    spinner.tick();
    spinner.tick();
    assert_ne!(first, second);
    assert_eq!(spinner.tick(), first);
}

#[test]
fn log_metrics_count_each_kind() {
    let mut metrics = LogMetrics::new();
    metrics.enable();
    metrics.increment_info();
    metrics.increment_info();
    metrics.increment_error();
    metrics.increment_warn();
    assert_eq!(metrics.get_stats(), (2, 1, 1));
}

#[test]
fn measurements_pair_starts_with_ends() {
    let mut monitor = PerformanceMonitor::new();
    monitor.start_measurement("load", 100);
    monitor.start_measurement("render", 110);
    monitor.end_measurement("load", 160);
    monitor.end_measurement("render", 135);
    assert_eq!(
        monitor.measurements(),
        &vec![("load".to_string(), 60), ("render".to_string(), 25)]
    );
}

#[test]
fn ending_an_unknown_measurement_records_nothing() {
    let mut monitor = PerformanceMonitor::new();
    monitor.start_measurement("load", 100);
    monitor.end_measurement("other", 160);
    assert!(monitor.measurements().is_empty());
}

#[test]
fn restarting_a_measurement_replaces_its_start() {
    let mut monitor = PerformanceMonitor::new();
    monitor.start_measurement("load", 100);
    monitor.start_measurement("load", 140);
    monitor.end_measurement("load", 150);
    assert_eq!(monitor.measurements(), &vec![("load".to_string(), 10)]);
}

#[test]
fn a_backwards_clock_yields_a_zero_duration() {
    let mut monitor = PerformanceMonitor::new();
    monitor.start_measurement("load", 100);
    monitor.end_measurement("load", 90);
    assert_eq!(monitor.measurements(), &vec![("load".to_string(), 0)]);
}

#[test]
fn navigation_monitor_counts_loads() {
    let mut monitor = NavigationMonitor::new();
    monitor.record_navigation(120);
    monitor.record_navigation(80);
    monitor.record_error();
    assert_eq!(monitor.page_loads(), 2);
    assert_eq!(monitor.navigation_times(), &vec![120, 80]);
    assert_eq!(monitor.get_stats(), "Performance stats not implemented");
}

#[test]
fn substring_containment_is_exact() {
    assert!(contains_substr("hello world", "o w"));
    assert!(contains_substr("hello world", ""));
    assert!(contains_substr("hello world", "hello world"));
    assert!(!contains_substr("hello world", "worlds"));
    assert!(!contains_substr("ab", "abc"));
}

#[test]
fn case_insensitive_equality_folds_ascii_only() {
    assert!(str_eq_ignore_ascii_case("Content-Type", "content-type"));
    assert!(str_eq_ignore_ascii_case("ACCEPT", "accept"));
    assert!(!str_eq_ignore_ascii_case("accept", "accepts"));
    assert!(!str_eq_ignore_ascii_case("a", "b"));
    assert_eq!(to_lower_char('Z'), 'z');
    assert_eq!(to_lower_char('z'), 'z');
    assert_eq!(to_lower_char('3'), '3');
}

#[test]
fn errors_describe_themselves() {
    assert_eq!(
        ConfigurationError.message(),
        "capacity must be a positive integer"
    );
    assert_eq!(FilterError.message(), "filter rule has an empty match expression");
    assert_eq!(PoolClosedError.message(), "connection pool is closed");
}
