use scrapely::crawler::coordinator::{crawl_done, queue_urls, record_visit};
use scrapely::{
    CompletionDetector, CrawlError, CrawlStats, DelayLimiter, ObserverRegistry, StatsTracker,
    VisitResult, VisitedUrls,
};
use std::time::Duration;

fn strings(v: &[&str]) -> Vec<String> {
    v.iter().map(|s| s.to_string()).collect()
}

#[test]
fn circular_links_are_visited_once() {
    let mut visited = VisitedUrls::new();
    let mut completion = CompletionDetector::new();
    let mut stats = StatsTracker::new();

    let queued = queue_urls(&mut visited, &mut completion, &strings(&["https://a.com"]));
    assert_eq!(queued, strings(&["https://a.com"]));
    completion.scraper_started();
    completion.scraper_finished();

    let a = VisitResult::new("https://a.com".to_string(), strings(&["https://b.com"]));
    let queued = record_visit(&mut visited, &mut completion, &mut stats, &a);
    assert_eq!(queued, strings(&["https://b.com"]));
    assert!(!crawl_done(&completion));

    let b = VisitResult::new("https://b.com".to_string(), strings(&["https://a.com"]));
    let queued = record_visit(&mut visited, &mut completion, &mut stats, &b);
    assert!(queued.is_empty());
    assert!(crawl_done(&completion));
    assert_eq!(stats.snapshot().urls_visited, 2);
}

#[test]
fn duplicate_and_equivalent_urls_are_queued_once() {
    let mut visited = VisitedUrls::new();
    let mut completion = CompletionDetector::new();
    let mut stats = StatsTracker::new();
    queue_urls(&mut visited, &mut completion, &strings(&["https://example.com"]));
    let result = VisitResult::new(
        "https://example.com".to_string(),
        strings(&[
            "https://example.com/page1",
            "https://example.com/page1",
            "https://example.com/page1/",
            "https://example.com/page1#frag",
        ]),
    );
    let queued = record_visit(&mut visited, &mut completion, &mut stats, &result);
    assert_eq!(queued, strings(&["https://example.com/page1"]));
    assert_eq!(completion.pending_count(), 1);
    assert_eq!(visited.len(), 2);
}

#[test]
fn empty_start_urls_finish_at_once() {
    let mut visited = VisitedUrls::new();
    let mut completion = CompletionDetector::new();
    let queued = queue_urls(&mut visited, &mut completion, &Vec::new());
    assert!(queued.is_empty());
    assert!(crawl_done(&completion));
}

#[test]
fn visited_urls_insert_reports_novelty() {
    let mut visited = VisitedUrls::new();
    assert!(visited.insert("https://x.org/a/"));
    assert!(!visited.insert("https://x.org/a"));
    assert!(visited.contains(&"https://x.org/a".to_string()));
    assert!(!visited.contains(&"https://x.org/a/".to_string()));
    assert_eq!(visited.len(), 1);
}

#[test]
fn stats_snapshot_and_elapsed() {
    let stats = CrawlStats::new();
    assert_eq!(stats.urls_visited, 0);
    assert_eq!(stats.elapsed(), Duration::from_secs(0));
    let d = CrawlStats::default();
    assert_eq!(d.items_extracted, 0);
    let mut tracker = StatsTracker::new();
    tracker.url_visited();
    tracker.item_extracted();
    tracker.error_encountered();
    let s = tracker.snapshot();
    assert_eq!((s.urls_visited, s.items_extracted, s.errors_encountered), (1, 1, 1));
}

#[test]
fn crawl_error_and_delay_limiter() {
    let e = CrawlError::new("https://a.com".to_string(), "channel_send", "closed".to_string());
    assert_eq!(e.url, "https://a.com");
    assert_eq!(e.operation, "channel_send");
    assert_eq!(e.error, "closed");
    let limiter = DelayLimiter::new(Duration::from_millis(200));
    assert_eq!(limiter.delay(), Duration::from_millis(200));
}

#[test]
fn observers_are_kept_in_order() {
    let mut registry: ObserverRegistry<&str> = ObserverRegistry::new();
    registry.register("first");
    registry.register("second");
    assert_eq!(registry.observers(), &vec!["first", "second"]);
    let empty: ObserverRegistry<u8> = ObserverRegistry::default();
    assert!(empty.observers().is_empty());
}

#[test]
fn default_builder_waits_two_hundred_millis() {
    let crawler = scrapely::Crawler::new();
    match crawler.config().rate_limiter {
        scrapely::RateLimiterConfig::Delay(d) => assert_eq!(d, Duration::from_millis(200)),
        _ => panic!("Expected a fixed delay"),
    }
    let built = scrapely::CrawlerBuilder::default().rate_limit(2.5f64.to_bits()).build().unwrap();
    match built.config().rate_limiter {
        scrapely::RateLimiterConfig::TokenBucket { requests_per_second_bits } => {
            assert_eq!(f64::from_bits(requests_per_second_bits), 2.5)
        }
        _ => panic!("Expected a token bucket"),
    }
}

#[test]
fn counters_wrap_like_atomics() {
    let mut detector = CompletionDetector::new();
    detector.url_completed();
    assert_eq!(detector.pending_count(), usize::MAX);
    detector.url_queued();
    assert_eq!(detector.pending_count(), 0);
}
