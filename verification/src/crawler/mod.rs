//! The crawler's bookkeeping: configuration and its validation, URL
//! deduplication, completion detection and statistics. The concurrent
//! scheduling that drives these lives with the async runtime.

pub mod completion;
pub mod config;
pub mod coordinator;
pub mod frontier;
pub mod observers;
pub mod stats;
pub mod types;
