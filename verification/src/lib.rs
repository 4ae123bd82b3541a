//! Declarative HTML scraping: typed extraction of items from HTML elements,
//! and the bookkeeping of a concurrent web crawler.

use vstd::prelude::*;

pub mod backend;
pub mod crawler;
pub mod error;
pub mod extract;
pub mod fields;
pub mod item;
pub mod item_attrs;
pub mod number;
pub mod plan;
pub mod refine;
pub mod settings;
pub mod text;
pub mod url;

pub use backend::ElementRef;
pub use crawler::completion::CompletionDetector;
pub use crawler::config::{ConfigError, Crawler, CrawlerBuilder, CrawlerConfig, RateLimiterConfig};
pub use crawler::frontier::VisitedUrls;
pub use crawler::observers::ObserverRegistry;
pub use crawler::stats::{CrawlStats, StatsTracker};
pub use crawler::types::{CrawlError, DelayLimiter, VisitResult};
pub use error::{ExtractionError, IntErrorKind, ParseError, ParseIntError};
pub use extract::FromHtml;
pub use item::Item as ItemTrait;
pub use url::UrlNormalizer;

verus! {

} // verus!
