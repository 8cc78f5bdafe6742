use nyan_browser::adblock::AdBlocker;

#[test]
fn a_matching_pattern_blocks_the_url() {
    let mut blocker = AdBlocker::new();
    blocker.add_filter("ads\\.");
    assert!(blocker.should_block("https://ads.example.com/banner"));
    assert!(!blocker.should_block("https://example.com/page"));
}

#[test]
fn regular_expression_semantics_are_real() {
    let mut blocker = AdBlocker::new();
    blocker.add_filter("^https?://tracker");
    assert!(blocker.should_block("http://tracker.example"));
    assert!(blocker.should_block("https://tracker.example"));
    assert!(!blocker.should_block("ftp://tracker.example"));
    assert!(!blocker.should_block("https://example.com/tracker"));
}

#[test]
fn an_invalid_pattern_is_recorded_but_never_blocks() {
    let mut blocker = AdBlocker::new();
    blocker.add_filter("[");
    assert_eq!(blocker.filter_count(), 1);
    assert!(!blocker.should_block("https://example.com/["));
}

#[test]
fn duplicate_patterns_are_recorded_once() {
    let mut blocker = AdBlocker::new();
    blocker.add_filter("ads");
    blocker.add_filter("ads");
    assert_eq!(blocker.filter_count(), 1);
    assert!(blocker.should_block("https://ads.example.com"));
}

#[test]
fn a_new_blocker_is_enabled_and_blocks_nothing() {
    let blocker = AdBlocker::new();
    assert!(blocker.is_enabled());
    assert!(!blocker.should_block("https://ads.example.com"));
}
