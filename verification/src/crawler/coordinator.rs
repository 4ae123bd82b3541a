//! The decisions of the crawl loop: which URLs to queue, and what each
//! queued URL and each visit does to the counters. The loop itself (sending
//! on channels, awaiting results) runs with the async runtime and calls
//! these.

use vstd::prelude::*;

use super::completion::{count_down, count_up_times, CompletionDetector};
use super::frontier::{admitted, seen_after, string_views, VisitedUrls};
use super::stats::StatsTracker;
use super::types::VisitResult;

verus! {

/// Offers `urls` to the crawl: returns those to queue (each one whose
/// normalized form is new) and counts each of them as pending.
pub fn queue_urls(visited: &mut VisitedUrls, completion: &mut CompletionDetector, urls: &Vec<String>) -> (queued: Vec<String>)
    ensures
        string_views(queued@) == admitted(old(visited).seen(), string_views(urls@)),
        final(visited).seen() == seen_after(old(visited).seen(), string_views(urls@)),
        final(completion).pending() == count_up_times(old(completion).pending(), queued@.len()),
        final(completion).active() == old(completion).active(),
{
    let queued = visited.offer(urls);
    let mut i: usize = 0;
    while i < queued.len()
        invariant
            i <= queued@.len(),
            completion.pending() == count_up_times(old(completion).pending(), i as nat),
            completion.active() == old(completion).active(),
        decreases queued@.len() - i,
    {
        completion.url_queued();
        i = i + 1;
    }
    queued
}

/// Records a visit: counts the URL as visited and completed, and queues
/// the URLs discovered on the page, as `queue_urls` does. Returns the URLs
/// to send to the scrapers.
pub fn record_visit(
    visited: &mut VisitedUrls,
    completion: &mut CompletionDetector,
    stats: &mut StatsTracker,
    result: &VisitResult,
) -> (queued: Vec<String>)
    ensures
        final(stats).visited() == super::completion::count_up(old(stats).visited()),
        final(stats).extracted() == old(stats).extracted(),
        final(stats).errors() == old(stats).errors(),
        string_views(queued@) == admitted(old(visited).seen(), string_views(result.discovered_urls@)),
        final(visited).seen() == seen_after(old(visited).seen(), string_views(result.discovered_urls@)),
        final(completion).pending() == count_up_times(count_down(old(completion).pending()), queued@.len()),
        final(completion).active() == old(completion).active(),
{
    stats.url_visited();
    completion.url_completed();
    queue_urls(visited, completion, &result.discovered_urls)
}

/// Whether the crawl loop is done: no URL pending and no scraper active.
pub fn crawl_done(completion: &CompletionDetector) -> (done: bool)
    ensures
        done == (completion.pending() == 0 && completion.active() == 0),
{
    completion.pending_count() == 0 && completion.active_count() == 0
}

} // verus!
