//! Crawler configuration, its validation, and the builder that produces a
//! crawler from it.

use vstd::prelude::*;

use super::completion::CompletionDetector;
use super::stats::{CrawlStats, StatsTracker};
use crate::error::concat_str;
use crate::text::{decimal, decimal_string};

verus! {

/// Errors that can occur during crawler configuration.
#[derive(Debug, Clone, Copy, PartialEq, Eq, Structural)]
pub enum ConfigError {
    /// Crawling concurrency must be greater than 0.
    InvalidCrawlingConcurrency(usize),
    /// Processing concurrency must be greater than 0.
    InvalidProcessingConcurrency(usize),
    /// Queue multipliers must be greater than 0.
    InvalidQueueMultiplier(usize),
}

impl ConfigError {
    pub open spec fn spec_message(self) -> Seq<char> {
        match self {
            ConfigError::InvalidCrawlingConcurrency(_) => "Crawling concurrency must be greater than 0, got "@,
            ConfigError::InvalidProcessingConcurrency(_) => "Processing concurrency must be greater than 0, got "@,
            ConfigError::InvalidQueueMultiplier(_) => "Queue multiplier must be greater than 0, got "@,
        }
    }

    /// The setting that was given.
    pub open spec fn value(self) -> usize {
        match self {
            ConfigError::InvalidCrawlingConcurrency(n) => n,
            ConfigError::InvalidProcessingConcurrency(n) => n,
            ConfigError::InvalidQueueMultiplier(n) => n,
        }
    }

    /// The message of the error, ending with the setting that was given.
    pub fn to_string(&self) -> (r: String)
        ensures
            r@ == self.spec_message() + decimal(self.value() as nat),
    {
        match self {
            ConfigError::InvalidCrawlingConcurrency(n) => {
                let d = decimal_string(*n);
                concat_str("Crawling concurrency must be greater than 0, got ", d.as_str())
            },
            ConfigError::InvalidProcessingConcurrency(n) => {
                let d = decimal_string(*n);
                concat_str("Processing concurrency must be greater than 0, got ", d.as_str())
            },
            ConfigError::InvalidQueueMultiplier(n) => {
                let d = decimal_string(*n);
                concat_str("Queue multiplier must be greater than 0, got ", d.as_str())
            },
        }
    }
}

/// Rate limiting strategy.
#[derive(Debug, Clone, Copy)]
pub enum RateLimiterConfig {
    /// A fixed delay before each request.
    Delay(std::time::Duration),
    /// Token bucket with the given requests per second, kept as the bits of
    /// the `f64` rate (`f64::to_bits`).
    TokenBucket { requests_per_second_bits: u64 },
    /// No rate limiting.
    Unlimited,
}

/// Configuration of a crawler.
#[derive(Debug, Clone, Copy)]
pub struct CrawlerConfig {
    /// Number of concurrent scraping tasks.
    pub crawling_concurrency: usize,
    /// Number of concurrent item processing tasks.
    pub processing_concurrency: usize,
    /// Crawling queue capacity per scraping task.
    pub crawling_queue_multiplier: usize,
    /// Processing queue capacity per processing task.
    pub processing_queue_multiplier: usize,
    /// Rate limiting strategy.
    pub rate_limiter: RateLimiterConfig,
}

/// The outcome of validating `c`: the first setting that is zero, in the
/// order crawling concurrency, processing concurrency, crawling queue
/// multiplier, processing queue multiplier.
pub open spec fn config_check(c: CrawlerConfig) -> Result<(), ConfigError> {
    if c.crawling_concurrency == 0 {
        Err(ConfigError::InvalidCrawlingConcurrency(0))
    } else if c.processing_concurrency == 0 {
        Err(ConfigError::InvalidProcessingConcurrency(0))
    } else if c.crawling_queue_multiplier == 0 {
        Err(ConfigError::InvalidQueueMultiplier(0))
    } else if c.processing_queue_multiplier == 0 {
        Err(ConfigError::InvalidQueueMultiplier(0))
    } else {
        Ok(())
    }
}

impl CrawlerConfig {
    /// Validates the configuration: every concurrency and multiplier must be
    /// greater than 0.
    pub fn validate(&self) -> (r: Result<(), ConfigError>)
        ensures
            r == config_check(*self),
    {
        if self.crawling_concurrency == 0 {
            return Err(ConfigError::InvalidCrawlingConcurrency(0));
        }
        if self.processing_concurrency == 0 {
            return Err(ConfigError::InvalidProcessingConcurrency(0));
        }
        if self.crawling_queue_multiplier == 0 {
            return Err(ConfigError::InvalidQueueMultiplier(0));
        }
        if self.processing_queue_multiplier == 0 {
            return Err(ConfigError::InvalidQueueMultiplier(0));
        }
        Ok(())
    }

    /// The crawling queue capacity: concurrency times multiplier.
    pub fn crawling_queue_capacity(&self) -> (r: usize)
        requires
            self.crawling_concurrency * self.crawling_queue_multiplier <= usize::MAX,
        ensures
            r == self.crawling_concurrency * self.crawling_queue_multiplier,
    {
        self.crawling_concurrency * self.crawling_queue_multiplier
    }

    /// The processing queue capacity: concurrency times multiplier.
    pub fn processing_queue_capacity(&self) -> (r: usize)
        requires
            self.processing_concurrency * self.processing_queue_multiplier <= usize::MAX,
        ensures
            r == self.processing_concurrency * self.processing_queue_multiplier,
    {
        self.processing_concurrency * self.processing_queue_multiplier
    }
}

pub const DEFAULT_CRAWLING_QUEUE_MULTIPLIER: usize = 400;

pub const DEFAULT_PROCESSING_QUEUE_MULTIPLIER: usize = 10;

pub const DEFAULT_DELAY_MS: u64 = 200;

pub const DEFAULT_CRAWLING_CONCURRENCY: usize = 2;

pub const DEFAULT_PROCESSING_CONCURRENCY: usize = 2;

/// The duration of `millis` milliseconds, as `std::time::Duration` holds it.
pub uninterp spec fn millis_duration(millis: u64) -> std::time::Duration;

/// `std::time::Duration::from_millis`: the duration of `millis`
/// milliseconds; it depends on `millis` alone and never panics.
#[verifier::external_body]
fn duration_from_millis(millis: u64) -> (r: std::time::Duration)
    ensures
        r == millis_duration(millis),
{
    std::time::Duration::from_millis(millis)
}

/// Whether `c` has the default settings: 2 crawling and 2 processing tasks,
/// queue multipliers 400 and 10, and a fixed delay of 200 ms between
/// requests.
pub open spec fn is_default_config(c: CrawlerConfig) -> bool {
    &&& c.crawling_concurrency == DEFAULT_CRAWLING_CONCURRENCY
    &&& c.processing_concurrency == DEFAULT_PROCESSING_CONCURRENCY
    &&& c.crawling_queue_multiplier == DEFAULT_CRAWLING_QUEUE_MULTIPLIER
    &&& c.processing_queue_multiplier == DEFAULT_PROCESSING_QUEUE_MULTIPLIER
    &&& c.rate_limiter == RateLimiterConfig::Delay(millis_duration(DEFAULT_DELAY_MS))
}

/// Builder for configuring a crawler.
pub struct CrawlerBuilder {
    config: CrawlerConfig,
}

impl CrawlerBuilder {
    /// The configuration built so far.
    pub closed spec fn spec_config(&self) -> CrawlerConfig {
        self.config
    }

    /// A builder with the default settings.
    pub fn new() -> (r: Self)
        ensures
            is_default_config(r.spec_config()),
    {
        CrawlerBuilder {
            config: CrawlerConfig {
                crawling_concurrency: DEFAULT_CRAWLING_CONCURRENCY,
                processing_concurrency: DEFAULT_PROCESSING_CONCURRENCY,
                crawling_queue_multiplier: DEFAULT_CRAWLING_QUEUE_MULTIPLIER,
                processing_queue_multiplier: DEFAULT_PROCESSING_QUEUE_MULTIPLIER,
                rate_limiter: RateLimiterConfig::Delay(duration_from_millis(DEFAULT_DELAY_MS)),
            },
        }
    }

    /// Sets the number of concurrent scraping tasks (default: 2).
    pub fn crawling_concurrency(self, concurrency: usize) -> (r: Self)
        ensures
            r.spec_config() == (CrawlerConfig {
                crawling_concurrency: concurrency,
                ..self.spec_config()
            }),
    {
        let mut b = self;
        b.config.crawling_concurrency = concurrency;
        b
    }

    /// Sets the number of concurrent processing tasks (default: 2).
    pub fn processing_concurrency(self, concurrency: usize) -> (r: Self)
        ensures
            r.spec_config() == (CrawlerConfig {
                processing_concurrency: concurrency,
                ..self.spec_config()
            }),
    {
        let mut b = self;
        b.config.processing_concurrency = concurrency;
        b
    }

    /// Sets the crawling queue capacity multiplier (default: 400); the queue
    /// holds `crawling_concurrency * multiplier` URLs.
    pub fn crawling_queue_multiplier(self, multiplier: usize) -> (r: Self)
        ensures
            r.spec_config() == (CrawlerConfig {
                crawling_queue_multiplier: multiplier,
                ..self.spec_config()
            }),
    {
        let mut b = self;
        b.config.crawling_queue_multiplier = multiplier;
        b
    }

    /// Sets the processing queue capacity multiplier (default: 10); the
    /// queue holds `processing_concurrency * multiplier` items.
    pub fn processing_queue_multiplier(self, multiplier: usize) -> (r: Self)
        ensures
            r.spec_config() == (CrawlerConfig {
                processing_queue_multiplier: multiplier,
                ..self.spec_config()
            }),
    {
        let mut b = self;
        b.config.processing_queue_multiplier = multiplier;
        b
    }

    /// Sets a fixed delay before each request (default: 200 ms).
    pub fn delay(self, delay: std::time::Duration) -> (r: Self)
        ensures
            r.spec_config() == (CrawlerConfig {
                rate_limiter: RateLimiterConfig::Delay(delay),
                ..self.spec_config()
            }),
    {
        let mut b = self;
        b.config.rate_limiter = RateLimiterConfig::Delay(delay);
        b
    }

    /// Sets token bucket rate limiting with the given requests per second,
    /// passed as the bits of the `f64` rate (`f64::to_bits`).
    pub fn rate_limit(self, requests_per_second_bits: u64) -> (r: Self)
        ensures
            r.spec_config() == (CrawlerConfig {
                rate_limiter: RateLimiterConfig::TokenBucket { requests_per_second_bits },
                ..self.spec_config()
            }),
    {
        let mut b = self;
        b.config.rate_limiter = RateLimiterConfig::TokenBucket { requests_per_second_bits };
        b
    }

    /// Builds the crawler, or reports the first invalid setting.
    pub fn build(self) -> (r: Result<Crawler, ConfigError>)
        ensures
            match config_check(self.spec_config()) {
                Ok(()) => r matches Ok(c) && c.spec_config() == self.spec_config() && c.is_fresh(),
                Err(e) => r matches Err(f) && f == e,
            },
    {
        match self.config.validate() {
            Ok(()) => Ok(Crawler::new_with_config(self.config)),
            Err(e) => Err(e),
        }
    }
}

impl Default for CrawlerBuilder {
    fn default() -> (r: Self)
        ensures
            is_default_config(r.spec_config()),
    {
        Self::new()
    }
}

/// A configured crawler: its settings, its statistics and its completion
/// counters. The concurrent crawl loop drives it.
pub struct Crawler {
    config: CrawlerConfig,
    stats: StatsTracker,
    completion: CompletionDetector,
}

impl Crawler {
    /// The crawler's configuration.
    pub closed spec fn spec_config(&self) -> CrawlerConfig {
        self.config
    }

    /// The crawler's statistics counters.
    pub closed spec fn tracker(&self) -> StatsTracker {
        self.stats
    }

    /// The crawler's completion counters.
    pub closed spec fn detector(&self) -> CompletionDetector {
        self.completion
    }

    /// No URL visited, no item extracted, no error, nothing pending.
    pub open spec fn is_fresh(&self) -> bool {
        &&& self.tracker().visited() == 0
        &&& self.tracker().extracted() == 0
        &&& self.tracker().errors() == 0
        &&& self.detector().pending() == 0
        &&& self.detector().active() == 0
    }

    fn new_with_config(config: CrawlerConfig) -> (r: Self)
        ensures
            r.spec_config() == config,
            r.is_fresh(),
    {
        Crawler { config, stats: StatsTracker::new(), completion: CompletionDetector::new() }
    }

    /// A crawler with the default settings.
    pub fn new() -> (r: Self)
        ensures
            is_default_config(r.spec_config()),
            r.is_fresh(),
    {
        let b = Self::builder();
        let config = b.config;
        assert(config_check(config) is Ok);
        Self::new_with_config(config)
    }

    /// A builder for custom configuration.
    pub fn builder() -> (r: CrawlerBuilder)
        ensures
            is_default_config(r.spec_config()),
    {
        CrawlerBuilder::new()
    }

    /// The crawler's configuration.
    pub fn config(&self) -> (r: &CrawlerConfig)
        ensures
            *r == self.spec_config(),
    {
        &self.config
    }

    /// A snapshot of the current crawl statistics.
    pub fn stats(&self) -> (r: CrawlStats)
        ensures
            r.urls_visited == self.tracker().visited(),
            r.items_extracted == self.tracker().extracted(),
            r.errors_encountered == self.tracker().errors(),
            r.start_time == self.tracker().started(),
    {
        self.stats.snapshot()
    }

    /// The crawler's parts, to be shared by the tasks of a crawl.
    pub fn into_parts(self) -> (r: (CrawlerConfig, StatsTracker, CompletionDetector))
        ensures
            r.0 == self.spec_config(),
            r.1 == self.tracker(),
            r.2 == self.detector(),
    {
        (self.config, self.stats, self.completion)
    }
}

impl Default for Crawler {
    fn default() -> (r: Self)
        ensures
            is_default_config(r.spec_config()),
            r.is_fresh(),
    {
        Self::new()
    }
}

/// A build succeeds exactly when every concurrency and queue multiplier is
/// greater than zero; in particular the default settings always build.
pub proof fn build_succeeds_iff_positive(c: CrawlerConfig)
    ensures
        config_check(c) is Ok <==> (c.crawling_concurrency > 0 && c.processing_concurrency > 0
            && c.crawling_queue_multiplier > 0 && c.processing_queue_multiplier > 0),
        is_default_config(c) ==> config_check(c) is Ok,
{
}

} // verus!
