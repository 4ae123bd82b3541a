use scrapely::CompletionDetector;

#[test]
fn test_pending_counter_accuracy() {
    let mut detector = CompletionDetector::new();

    // Queue 10 URLs
    for _ in 0..10 {
        detector.url_queued();
    }

    let pending = detector.pending_count();
    assert_eq!(
        pending, 10,
        "Pending count should be 10 after queueing 10 URLs"
    );

    // Complete 5 URLs
    for _ in 0..5 {
        detector.url_completed();
    }

    let pending_after = detector.pending_count();
    assert_eq!(
        pending_after, 5,
        "Pending count should be 5 after completing 5 URLs"
    );

    // Complete remaining URLs
    for _ in 0..5 {
        detector.url_completed();
    }

    let final_pending = detector.pending_count();
    assert_eq!(
        final_pending, 0,
        "Pending count should be 0 after completing all URLs"
    );
}

#[test]
fn completion_detection_test_scraper_tracking() {
    let mut detector = CompletionDetector::new();

    // Start 3 scrapers
    for _ in 0..3 {
        detector.scraper_started();
    }

    let active = detector.active_count();
    assert_eq!(active, 3, "Should have 3 active scrapers");

    // Finish 2 scrapers
    for _ in 0..2 {
        detector.scraper_finished();
    }

    let active_after = detector.active_count();
    assert_eq!(active_after, 1, "Should have 1 active scraper");
}

#[test]
fn completion_reported_when_last_work_finishes() {
    let mut detector = CompletionDetector::new();
    detector.url_queued();
    detector.scraper_started();
    // The scraper finishes while the URL is still pending: not complete
    assert!(!detector.scraper_finished());
    // The last pending URL completes with no active scraper: complete
    assert!(detector.url_completed());
    assert!(detector.check_completion());
}

#[test]
fn completion_not_reported_with_active_scraper() {
    let mut detector = CompletionDetector::new();
    detector.url_queued();
    detector.scraper_started();
    assert!(!detector.url_completed());
    assert!(!detector.check_completion());
    assert!(detector.scraper_finished());
}

#[test]
fn queue_then_complete_restores_count() {
    let mut detector = CompletionDetector::new();
    detector.url_queued();
    detector.url_queued();
    let before = detector.pending_count();
    detector.url_queued();
    detector.url_completed();
    assert_eq!(detector.pending_count(), before);
}
