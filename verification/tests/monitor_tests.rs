use nyan_browser::monitor::{NetworkMonitor, RequestData, RequestFilter};

fn record(url: &str, method: &str, headers: &[(&str, &str)]) -> RequestData {
    RequestData {
        url: url.to_string(),
        method: method.to_string(),
        headers: headers
            .iter()
            .map(|(k, v)| (k.to_string(), v.to_string()))
            .collect(),
        body: None,
    }
}

fn url_filter(pattern: &str) -> RequestFilter {
    RequestFilter {
        url_pattern: pattern.to_string(),
        method: None,
        headers: Vec::new(),
    }
}

#[test]
fn zero_bound_is_a_configuration_error() {
    assert!(NetworkMonitor::new(0).is_err());
    assert!(NetworkMonitor::new(1).is_ok());
}

#[test]
fn rolling_history_keeps_the_last_three_oldest_first() {
    let mut monitor = NetworkMonitor::new(3).unwrap();
    monitor.add_filter(url_filter("api")).unwrap();
    for i in 1..=5 {
        monitor.intercept_request(record(&format!("https://api.example/{i}"), "GET", &[]));
    }
    let urls: Vec<&str> = monitor
        .recorded_requests()
        .iter()
        .map(|r| r.url.as_str())
        .collect();
    assert_eq!(
        urls,
        vec![
            "https://api.example/3",
            "https://api.example/4",
            "https://api.example/5"
        ]
    );
}

#[test]
fn with_no_filters_nothing_is_recorded() {
    let mut monitor = NetworkMonitor::new(3).unwrap();
    monitor.intercept_request(record("https://api.example/a", "GET", &[]));
    monitor.intercept_request(record("https://example.com", "POST", &[]));
    assert_eq!(monitor.request_count(), 0);
}

#[test]
fn a_url_without_the_substring_is_dropped() {
    let mut monitor = NetworkMonitor::new(3).unwrap();
    monitor.add_filter(url_filter("api")).unwrap();
    monitor.intercept_request(record("https://example.com/page", "GET", &[]));
    assert_eq!(monitor.request_count(), 0);
    monitor.intercept_request(record("https://example.com/api/x", "GET", &[]));
    assert_eq!(monitor.request_count(), 1);
}

#[test]
fn a_method_filter_requires_an_exact_match() {
    let mut monitor = NetworkMonitor::new(3).unwrap();
    monitor
        .add_filter(RequestFilter {
            url_pattern: "example".to_string(),
            method: Some("GET".to_string()),
            headers: Vec::new(),
        })
        .unwrap();
    monitor.intercept_request(record("https://example.com", "POST", &[]));
    assert_eq!(monitor.request_count(), 0);
    monitor.intercept_request(record("https://example.com", "GET", &[]));
    assert_eq!(monitor.request_count(), 1);
}

#[test]
fn required_header_names_match_without_regard_to_case() {
    let mut monitor = NetworkMonitor::new(3).unwrap();
    monitor
        .add_filter(RequestFilter {
            url_pattern: "example".to_string(),
            method: None,
            headers: vec!["content-type".to_string()],
        })
        .unwrap();
    monitor.intercept_request(record("https://example.com", "GET", &[("Accept", "*/*")]));
    assert_eq!(monitor.request_count(), 0);
    monitor.intercept_request(record(
        "https://example.com",
        "GET",
        &[("Content-Type", "text/html")],
    ));
    assert_eq!(monitor.request_count(), 1);
}

#[test]
fn any_matching_filter_retains_a_record() {
    let mut monitor = NetworkMonitor::new(3).unwrap();
    monitor.add_filter(url_filter("api")).unwrap();
    monitor.add_filter(url_filter("static")).unwrap();
    monitor.intercept_request(record("https://cdn.example/static/app.js", "GET", &[]));
    assert_eq!(monitor.request_count(), 1);
}

#[test]
fn malformed_filters_are_rejected_and_earlier_ones_kept() {
    let mut monitor = NetworkMonitor::new(3).unwrap();
    monitor.add_filter(url_filter("api")).unwrap();
    assert!(monitor.add_filter(url_filter("")).is_err());
    assert!(monitor
        .add_filter(RequestFilter {
            url_pattern: "x".to_string(),
            method: Some(String::new()),
            headers: Vec::new(),
        })
        .is_err());
    assert!(monitor
        .add_filter(RequestFilter {
            url_pattern: "x".to_string(),
            method: None,
            headers: vec![String::new()],
        })
        .is_err());
    assert_eq!(monitor.filter_count(), 1);
    monitor.intercept_request(record("https://api.example/a", "GET", &[]));
    assert_eq!(monitor.request_count(), 1);
}

#[test]
fn clearing_the_history_keeps_the_filters() {
    let mut monitor = NetworkMonitor::new(3).unwrap();
    monitor.add_filter(url_filter("api")).unwrap();
    monitor.intercept_request(record("https://api.example/a", "GET", &[]));
    assert_eq!(monitor.request_count(), 1);
    monitor.clear_old_requests();
    assert_eq!(monitor.request_count(), 0);
    assert_eq!(monitor.filter_count(), 1);
    monitor.intercept_request(record("https://api.example/b", "GET", &[]));
    assert_eq!(monitor.request_count(), 1);
}

#[test]
fn filter_matching_follows_the_rule() {
    let filter = RequestFilter {
        url_pattern: "api".to_string(),
        method: Some("GET".to_string()),
        headers: vec!["Accept".to_string()],
    };
    let hit = record("https://api.example", "GET", &[("accept", "*/*")]);
    let wrong_method = record("https://api.example", "POST", &[("accept", "*/*")]);
    let missing_header = record("https://api.example", "GET", &[]);
    let wrong_url = record("https://example.com", "GET", &[("accept", "*/*")]);
    assert!(filter.matches(&hit));
    assert!(!filter.matches(&wrong_method));
    assert!(!filter.matches(&missing_header));
    assert!(!filter.matches(&wrong_url));
}

#[test]
fn max_records_reports_the_bound() {
    let monitor = NetworkMonitor::new(7).unwrap();
    assert_eq!(monitor.max_records(), 7);
}
