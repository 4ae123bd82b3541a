//! Crawl statistics: counters of visited URLs, extracted items and errors,
//! with the times they were taken at.

use vstd::prelude::*;

use super::completion::count_up;
use super::config::millis_duration;

verus! {

#[verifier::external_type_specification]
#[verifier::external_body]
pub struct ExInstant(std::time::Instant);

/// `std::time::Instant::now`: the current time; nothing is stated of it.
#[verifier::external_body]
fn instant_now() -> std::time::Instant {
    std::time::Instant::now()
}

/// The time from `earlier` to `later`, as `Instant::duration_since` gives it
/// (zero when `later` is not after `earlier`). It depends on the two instants
/// alone.
pub uninterp spec fn duration_between(later: std::time::Instant, earlier: std::time::Instant) -> std::time::Duration;

/// `std::time::Instant::duration_since`: the time from `earlier` to `later`,
/// which is zero for equal instants; it saturates and never panics.
#[verifier::external_body]
fn duration_since(later: std::time::Instant, earlier: std::time::Instant) -> (r: std::time::Duration)
    ensures
        r == duration_between(later, earlier),
        later == earlier ==> r == millis_duration(0),
{
    later.duration_since(earlier)
}

/// Statistics collected during crawling, with timestamps.
#[derive(Debug, Clone, Copy)]
pub struct CrawlStats {
    /// Number of URLs visited.
    pub urls_visited: usize,
    /// Number of items extracted.
    pub items_extracted: usize,
    /// Number of errors encountered.
    pub errors_encountered: usize,
    /// When the crawl started.
    pub start_time: std::time::Instant,
    /// When these statistics were taken.
    pub last_update: std::time::Instant,
}

impl CrawlStats {
    /// Statistics with all counters at zero, started and taken now.
    pub fn new() -> (r: Self)
        ensures
            r.urls_visited == 0,
            r.items_extracted == 0,
            r.errors_encountered == 0,
            r.start_time == r.last_update,
    {
        let now = instant_now();
        CrawlStats {
            urls_visited: 0,
            items_extracted: 0,
            errors_encountered: 0,
            start_time: now,
            last_update: now,
        }
    }

    /// The time from the start of the crawl to when these statistics were
    /// taken.
    pub fn elapsed(&self) -> (r: std::time::Duration)
        ensures
            r == duration_between(self.last_update, self.start_time),
            self.start_time == self.last_update ==> r == millis_duration(0),
    {
        duration_since(self.last_update, self.start_time)
    }
}

impl Default for CrawlStats {
    fn default() -> (r: Self)
        ensures
            r.urls_visited == 0,
            r.items_extracted == 0,
            r.errors_encountered == 0,
            r.start_time == r.last_update,
    {
        Self::new()
    }
}

/// Counts visited URLs, extracted items and errors since it was created.
pub struct StatsTracker {
    urls_visited: usize,
    items_extracted: usize,
    errors_encountered: usize,
    start_time: std::time::Instant,
}

impl StatsTracker {
    pub closed spec fn visited(&self) -> usize {
        self.urls_visited
    }

    pub closed spec fn extracted(&self) -> usize {
        self.items_extracted
    }

    pub closed spec fn errors(&self) -> usize {
        self.errors_encountered
    }

    pub closed spec fn started(&self) -> std::time::Instant {
        self.start_time
    }

    /// A tracker with all counters at zero, started now.
    pub fn new() -> (r: Self)
        ensures
            r.visited() == 0,
            r.extracted() == 0,
            r.errors() == 0,
    {
        StatsTracker {
            urls_visited: 0,
            items_extracted: 0,
            errors_encountered: 0,
            start_time: instant_now(),
        }
    }

    /// Records a URL visit.
    pub fn url_visited(&mut self)
        ensures
            final(self).visited() == count_up(old(self).visited()),
            final(self).extracted() == old(self).extracted(),
            final(self).errors() == old(self).errors(),
            final(self).started() == old(self).started(),
    {
        self.urls_visited = if self.urls_visited == usize::MAX {
            0
        } else {
            self.urls_visited + 1
        };
    }

    /// Records an extracted item.
    pub fn item_extracted(&mut self)
        ensures
            final(self).extracted() == count_up(old(self).extracted()),
            final(self).visited() == old(self).visited(),
            final(self).errors() == old(self).errors(),
            final(self).started() == old(self).started(),
    {
        self.items_extracted = if self.items_extracted == usize::MAX {
            0
        } else {
            self.items_extracted + 1
        };
    }

    /// Records an error.
    pub fn error_encountered(&mut self)
        ensures
            final(self).errors() == count_up(old(self).errors()),
            final(self).visited() == old(self).visited(),
            final(self).extracted() == old(self).extracted(),
            final(self).started() == old(self).started(),
    {
        self.errors_encountered = if self.errors_encountered == usize::MAX {
            0
        } else {
            self.errors_encountered + 1
        };
    }

    /// The current statistics, taken now.
    pub fn snapshot(&self) -> (r: CrawlStats)
        ensures
            r.urls_visited == self.visited(),
            r.items_extracted == self.extracted(),
            r.errors_encountered == self.errors(),
            r.start_time == self.started(),
    {
        CrawlStats {
            urls_visited: self.urls_visited,
            items_extracted: self.items_extracted,
            errors_encountered: self.errors_encountered,
            start_time: self.start_time,
            last_update: instant_now(),
        }
    }
}

impl Default for StatsTracker {
    fn default() -> (r: Self)
        ensures
            r.visited() == 0,
            r.extracted() == 0,
            r.errors() == 0,
    {
        Self::new()
    }
}

} // verus!
