//! Plain records exchanged while crawling.

use vstd::prelude::*;

verus! {

/// Result of visiting a URL during crawling.
#[derive(Debug, Clone)]
pub struct VisitResult {
    /// The URL that was visited.
    pub visited_url: String,
    /// New URLs discovered on the page.
    pub discovered_urls: Vec<String>,
}

impl VisitResult {
    /// A visit result with the URLs discovered on the page.
    pub fn new(visited_url: String, discovered_urls: Vec<String>) -> (r: Self)
        ensures
            r.visited_url == visited_url,
            r.discovered_urls == discovered_urls,
    {
        VisitResult { visited_url, discovered_urls }
    }

    /// A visit result that discovered no URL.
    pub fn empty(visited_url: String) -> (r: Self)
        ensures
            r.visited_url == visited_url,
            r.discovered_urls@.len() == 0,
    {
        VisitResult { visited_url, discovered_urls: Vec::new() }
    }
}

/// An error that occurred during crawling, with its context.
#[derive(Debug)]
pub struct CrawlError {
    /// The URL being processed when the error occurred.
    pub url: String,
    /// The operation that failed.
    pub operation: String,
    /// The error message.
    pub error: String,
}

impl CrawlError {
    /// A crawl error with its context.
    pub fn new(url: String, operation: &str, error: String) -> (r: Self)
        ensures
            r.url == url,
            r.operation@ == operation@,
            r.error == error,
    {
        CrawlError { url, operation: operation.to_owned(), error }
    }
}

/// Rate limiting by a fixed delay before each request.
#[derive(Debug)]
pub struct DelayLimiter {
    delay: std::time::Duration,
}

impl DelayLimiter {
    /// The delay this limiter waits before each request.
    pub closed spec fn spec_delay(&self) -> std::time::Duration {
        self.delay
    }

    /// A limiter that waits `delay` before each request.
    pub fn new(delay: std::time::Duration) -> (r: Self)
        ensures
            r.spec_delay() == delay,
    {
        DelayLimiter { delay }
    }

    /// The delay this limiter waits before each request.
    pub fn delay(&self) -> (r: std::time::Duration)
        ensures
            r == self.spec_delay(),
    {
        self.delay
    }
}

} // verus!
