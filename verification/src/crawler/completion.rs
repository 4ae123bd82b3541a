//! Detecting when a crawl is complete by tracking pending work.

use vstd::prelude::*;

verus! {

/// The counter one higher, wrapping to zero past the maximum (as an atomic
/// counter does).
pub open spec fn count_up(n: usize) -> usize {
    if n == usize::MAX {
        0
    } else {
        (n + 1) as usize
    }
}

/// The counter one lower, wrapping to the maximum below zero.
pub open spec fn count_down(n: usize) -> usize {
    if n == 0 {
        usize::MAX
    } else {
        (n - 1) as usize
    }
}

/// `count_up` applied `k` times.
pub open spec fn count_up_times(n: usize, k: nat) -> usize
    decreases k,
{
    if k == 0 {
        n
    } else {
        count_up(count_up_times(n, (k - 1) as nat))
    }
}

/// `count_down` applied `k` times.
pub open spec fn count_down_times(n: usize, k: nat) -> usize
    decreases k,
{
    if k == 0 {
        n
    } else {
        count_down(count_down_times(n, (k - 1) as nat))
    }
}

/// Counts the URLs queued but not yet visited and the scrapers at work; the
/// crawl is complete when both are zero.
pub struct CompletionDetector {
    pending_urls: usize,
    active_scrapers: usize,
}

impl CompletionDetector {
    /// URLs queued and not yet completed.
    pub closed spec fn pending(&self) -> usize {
        self.pending_urls
    }

    /// Scrapers started and not yet finished.
    pub closed spec fn active(&self) -> usize {
        self.active_scrapers
    }

    /// A detector with no pending URL and no active scraper.
    pub fn new() -> (r: Self)
        ensures
            r.pending() == 0,
            r.active() == 0,
    {
        CompletionDetector { pending_urls: 0, active_scrapers: 0 }
    }

    /// Counts a URL queued for visiting.
    pub fn url_queued(&mut self)
        ensures
            final(self).pending() == count_up(old(self).pending()),
            final(self).active() == old(self).active(),
    {
        self.pending_urls = if self.pending_urls == usize::MAX {
            0
        } else {
            self.pending_urls + 1
        };
    }

    /// Counts a URL visit completed. Returns whether this completed the
    /// crawl: the last pending URL is done and no scraper is active.
    pub fn url_completed(&mut self) -> (done: bool)
        ensures
            final(self).pending() == count_down(old(self).pending()),
            final(self).active() == old(self).active(),
            done == (old(self).pending() == 1 && old(self).active() == 0),
    {
        let remaining = self.pending_urls;
        self.pending_urls = if remaining == 0 {
            usize::MAX
        } else {
            remaining - 1
        };
        if remaining == 1 {
            self.check_completion()
        } else {
            false
        }
    }

    /// Counts a scraper started.
    pub fn scraper_started(&mut self)
        ensures
            final(self).active() == count_up(old(self).active()),
            final(self).pending() == old(self).pending(),
    {
        self.active_scrapers = if self.active_scrapers == usize::MAX {
            0
        } else {
            self.active_scrapers + 1
        };
    }

    /// Counts a scraper finished. Returns whether this completed the crawl:
    /// the last active scraper is done and no URL is pending.
    pub fn scraper_finished(&mut self) -> (done: bool)
        ensures
            final(self).active() == count_down(old(self).active()),
            final(self).pending() == old(self).pending(),
            done == (old(self).active() == 1 && old(self).pending() == 0),
    {
        let remaining = self.active_scrapers;
        self.active_scrapers = if remaining == 0 {
            usize::MAX
        } else {
            remaining - 1
        };
        if remaining == 1 {
            self.check_completion()
        } else {
            false
        }
    }

    /// Whether no URL is pending and no scraper is active.
    pub fn check_completion(&self) -> (done: bool)
        ensures
            done == (self.pending() == 0 && self.active() == 0),
    {
        self.pending_urls == 0 && self.active_scrapers == 0
    }

    /// The number of pending URLs.
    pub fn pending_count(&self) -> (r: usize)
        ensures
            r == self.pending(),
    {
        self.pending_urls
    }

    /// The number of active scrapers.
    pub fn active_count(&self) -> (r: usize)
        ensures
            r == self.active(),
    {
        self.active_scrapers
    }
}

impl Default for CompletionDetector {
    fn default() -> (r: Self)
        ensures
            r.pending() == 0,
            r.active() == 0,
    {
        Self::new()
    }
}

/// Completing a URL undoes queueing one, and queueing undoes completing:
/// the pending count comes back to where it was.
pub proof fn completion_undoes_queueing(n: usize)
    ensures
        count_down(count_up(n)) == n,
        count_up(count_down(n)) == n,
{
}

/// Queueing `q` URLs on a fresh detector and completing `c` of them, with
/// `c <= q`, leaves `q - c` pending; the same holds of starting and finishing
/// scrapers.
pub proof fn pending_tracks_operations(q: nat, c: nat)
    requires
        c <= q <= usize::MAX,
    ensures
        count_down_times(count_up_times(0, q), c) == q - c,
    decreases c,
{
    lemma_count_up_times(q);
    if c > 0 {
        pending_tracks_operations(q, (c - 1) as nat);
    }
}

proof fn lemma_count_up_times(q: nat)
    requires
        q <= usize::MAX,
    ensures
        count_up_times(0, q) == q,
    decreases q,
{
    if q > 0 {
        lemma_count_up_times((q - 1) as nat);
    }
}

} // verus!
