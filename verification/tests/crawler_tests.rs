use scrapely::{CompletionDetector, StatsTracker, VisitResult};

#[test]
fn test_initial_state() {
    let detector = CompletionDetector::new();
    assert_eq!(detector.pending_count(), 0);
    assert_eq!(detector.active_count(), 0);
}

#[test]
fn test_url_queued_increments() {
    let mut detector = CompletionDetector::new();
    detector.url_queued();
    assert_eq!(detector.pending_count(), 1);

    detector.url_queued();
    detector.url_queued();
    assert_eq!(detector.pending_count(), 3);
}

#[test]
fn test_url_completed_decrements() {
    let mut detector = CompletionDetector::new();
    detector.url_queued();
    detector.url_queued();

    detector.url_completed();
    assert_eq!(detector.pending_count(), 1);

    detector.url_completed();
    assert_eq!(detector.pending_count(), 0);
}

#[test]
fn crawler_tests_test_scraper_tracking() {
    let mut detector = CompletionDetector::new();

    detector.scraper_started();
    assert_eq!(detector.active_count(), 1);

    detector.scraper_started();
    detector.scraper_started();
    assert_eq!(detector.active_count(), 3);

    detector.scraper_finished();
    assert_eq!(detector.active_count(), 2);
}

#[test]
fn test_initial_stats() {
    let tracker = StatsTracker::new();
    let stats = tracker.snapshot();

    assert_eq!(stats.urls_visited, 0);
    assert_eq!(stats.items_extracted, 0);
    assert_eq!(stats.errors_encountered, 0);
}

#[test]
fn test_url_visited_increments() {
    let mut tracker = StatsTracker::new();

    tracker.url_visited();
    tracker.url_visited();
    tracker.url_visited();

    let stats = tracker.snapshot();
    assert_eq!(stats.urls_visited, 3);
}

#[test]
fn test_item_extracted_increments() {
    let mut tracker = StatsTracker::new();

    tracker.item_extracted();
    tracker.item_extracted();

    let stats = tracker.snapshot();
    assert_eq!(stats.items_extracted, 2);
}

#[test]
fn test_error_encountered_increments() {
    let mut tracker = StatsTracker::new();

    tracker.error_encountered();

    let stats = tracker.snapshot();
    assert_eq!(stats.errors_encountered, 1);
}

#[test]
fn test_new_visit_result() {
    let result = VisitResult::new(
        "https://example.com".to_string(),
        vec!["https://example.com/page1".to_string()],
    );

    assert_eq!(result.visited_url, "https://example.com");
    assert_eq!(result.discovered_urls.len(), 1);
}

#[test]
fn test_empty_visit_result() {
    let result = VisitResult::empty("https://example.com".to_string());

    assert_eq!(result.visited_url, "https://example.com");
    assert_eq!(result.discovered_urls.len(), 0);
}
