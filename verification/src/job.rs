//! One crawl job: the rules for consuming a single page-event stream.
//!
//! A job exists for exactly one target URL.  The engine emits page events
//! in its own order; the job skips events flagged empty, takes the first
//! event whose resolved URL equals the target, and from that moment on
//! tells the driver to stop the crawl — no later event is ever examined.
//! A stream that ends without a match is an absence, not an error.

use vstd::prelude::*;

use crate::CachedResult;
use crate::engine::markdown_of;
use crate::engine::random_desktop_viewport;
use crate::engine::transform_markdown;

verus! {

/// One event from the engine's page stream, reduced to the plain values
/// the job reads: the resolved URL, the engine's "empty" flag, and the raw
/// content.
pub struct PageEvent {
    pub url: String,
    pub empty: bool,
    pub html: String,
}

/// The event satisfies a job with the given target: it carries content and
/// resolved to the target URL.
pub open spec fn event_matches(e: PageEvent, target: Seq<char>) -> bool {
    !e.empty && e.url@ == target
}

/// What the job tells the stream driver after an event.
#[derive(Clone, Copy, Debug, PartialEq, Eq, Structural)]
pub enum StreamAction {
    KeepConsuming,
    StopCrawl,
}

/// The index of the first matching event of a recorded stream, if any.
pub open spec fn first_match_at(s: Seq<PageEvent>, target: Seq<char>) -> Option<int>
    decreases s.len(),
{
    if s.len() == 0 {
        None
    } else if event_matches(s[0], target) {
        Some(0int)
    } else {
        match first_match_at(s.drop_first(), target) {
            Some(i) => Some(i + 1),
            None => None,
        }
    }
}

/// A crawl job for one target URL: waits for the first matching page
/// event, then holds it.
pub struct CrawlJob {
    target: String,
    matched: Option<PageEvent>,
}

impl CrawlJob {
    /// The URL this job is looking for.
    pub closed spec fn target(self) -> Seq<char> {
        self.target@
    }

    /// The matching event observed so far, if any.
    pub closed spec fn matched(self) -> Option<PageEvent> {
        self.matched
    }

    /// The job has seen its page and consumes nothing further.
    pub open spec fn satisfied(self) -> bool {
        self.matched() is Some
    }

    /// A fresh job for `target`, still waiting.
    pub fn new(target: String) -> (j: CrawlJob)
        ensures
            j.target() == target@,
            !j.satisfied(),
    {
        CrawlJob { target, matched: None }
    }

    /// Feeds one event to the job.  Law: early termination — once the job
    /// is satisfied it changes no more and answers `StopCrawl` without
    /// reading the event; the first matching event is kept and stops the
    /// crawl; anything else (an empty page, a foreign URL) is skipped.
    pub fn observe(&mut self, e: PageEvent) -> (a: StreamAction)
        ensures
            final(self).target() == old(self).target(),
            old(self).satisfied() ==> *final(self) == *old(self) && a == StreamAction::StopCrawl,
            !old(self).satisfied() && event_matches(e, old(self).target()) ==> final(self).matched()
                == Some(e) && a == StreamAction::StopCrawl,
            !old(self).satisfied() && !event_matches(e, old(self).target()) ==> *final(self) == *old(
                self,
            ) && a == StreamAction::KeepConsuming,
    {
        match &self.matched {
            Some(_) => StreamAction::StopCrawl,
            None => {
                if !e.empty && e.url == self.target {
                    self.matched = Some(e);
                    StreamAction::StopCrawl
                } else {
                    StreamAction::KeepConsuming
                }
            }
        }
    }

    /// Surrenders the matching event, consuming the job.
    pub fn into_match(self) -> (r: Option<PageEvent>)
        ensures
            r == self.matched(),
    {
        self.matched
    }
}

/// If position `i` holds the first matching event, the model agrees.
proof fn lemma_first_match_found(s: Seq<PageEvent>, target: Seq<char>, i: int)
    requires
        0 <= i < s.len(),
        event_matches(s[i], target),
        forall|j: int| 0 <= j < i ==> !event_matches(s[j], target),
    ensures
        first_match_at(s, target) == Some(i),
    decreases i,
{
    if i > 0 {
        assert(forall|j: int| 0 <= j < i - 1 ==> s.drop_first()[j] == s[j + 1]);
        lemma_first_match_found(s.drop_first(), target, i - 1);
    }
}

/// If no event matches, the model agrees.
proof fn lemma_first_match_absent(s: Seq<PageEvent>, target: Seq<char>)
    requires
        forall|j: int| 0 <= j < s.len() ==> !event_matches(s[j], target),
    ensures
        first_match_at(s, target) is None,
    decreases s.len(),
{
    if s.len() > 0 {
        assert(forall|j: int| 0 <= j < s.len() - 1 ==> s.drop_first()[j] == s[j + 1]);
        lemma_first_match_absent(s.drop_first(), target);
    }
}

/// Consumes a recorded event stream exactly as a job driven event by event
/// would: returns the position of the match and how many events were
/// examined.  Law: early termination — when a match exists at position
/// `i`, exactly `i + 1` events are examined and the rest are never
/// touched; only a stream with no match is read to its end.
pub fn scan_events(target: &String, events: &Vec<PageEvent>) -> (r: (Option<usize>, usize))
    ensures
        match r.0 {
            Some(i) => first_match_at(events@, target@) == Some(i as int) && r.1 == i + 1,
            None => first_match_at(events@, target@) is None && r.1 == events@.len(),
        },
{
    let n = events.len();
    let mut i: usize = 0;
    while i < n
        invariant
            n == events@.len(),
            i <= n,
            forall|j: int| 0 <= j < i ==> !event_matches(events@[j], target@),
        decreases n - i,
    {
        let e = &events[i];
        if !e.empty && e.url == *target {
            proof {
                lemma_first_match_found(events@, target@, i as int);
            }
            return (Some(i), i + 1);
        }
        i += 1;
    }
    proof {
        lemma_first_match_absent(events@, target@);
    }
    (None, n)
}

/// Completes a matched job: renders the captured page to markdown and
/// pairs it with the requested URL, ready for the cache and the response.
pub fn finish_match(target: &String, e: &PageEvent) -> (r: CachedResult)
    ensures
        r.source@ == target@,
        r.content@ == markdown_of(e.url@, e.html@),
{
    CachedResult { source: target.clone(), content: transform_markdown(&e.url, &e.html) }
}

/// The fixed user agent every job navigates with.
pub open spec fn spec_default_user_agent() -> Seq<char> {
    "Mozilla/5.0 (Macintosh; Intel Mac OS X 10_15_7) AppleWebKit/537.36 (KHTML, like Gecko) Chrome/136.0.0.0 Safari/537.36"@
}

/// Immutable per-job configuration: one page, the fixed interception and
/// wait policy, a randomized desktop viewport, and the upstream engine
/// address, if any.  Built fresh per job and handed to the engine driver.
pub struct CrawlJobConfig {
    pub target_url: String,
    pub page_limit: u64,
    pub block_javascript: bool,
    pub block_stylesheets: bool,
    pub block_visuals: bool,
    pub block_ads: bool,
    pub block_analytics: bool,
    pub track_requests: bool,
    pub track_responses: bool,
    pub wait_for_delay_ms: u64,
    pub wait_for_idle_network_ms: u64,
    pub wait_for_selector_ms: u64,
    pub wait_for_selector: String,
    pub block_assets: bool,
    pub viewport_width: u32,
    pub viewport_height: u32,
    pub user_agent: String,
    pub stealth: bool,
    pub return_page_links: bool,
    pub advanced_fingerprint: bool,
    pub chrome_connection_url: Option<String>,
}

impl CrawlJobConfig {
    /// The single-page policy for one URL: a limit of exactly one page,
    /// analytics blocked while scripts, styles, visuals and ads pass,
    /// request and response tracking on, the fixed waits (200 ms delay,
    /// 2000 ms idle network, 5000 ms for the `body` selector), a random
    /// desktop viewport, the fixed user agent, and stealth on.
    pub fn for_url(target_url: String, chrome_connection_url: Option<String>) -> (c:
        CrawlJobConfig)
        ensures
            c.target_url@ == target_url@,
            c.page_limit == 1,
            !c.block_javascript,
            !c.block_stylesheets,
            !c.block_visuals,
            !c.block_ads,
            c.block_analytics,
            c.track_requests,
            c.track_responses,
            c.wait_for_delay_ms == 200,
            c.wait_for_idle_network_ms == 2000,
            c.wait_for_selector_ms == 5000,
            c.wait_for_selector@ == "body"@,
            c.block_assets,
            1024 <= c.viewport_width <= 1920,
            768 <= c.viewport_height <= 1080,
            c.user_agent@ == spec_default_user_agent(),
            c.stealth,
            c.return_page_links,
            !c.advanced_fingerprint,
            c.chrome_connection_url == chrome_connection_url,
    {
        let (viewport_width, viewport_height) = random_desktop_viewport();
        CrawlJobConfig {
            target_url,
            page_limit: 1,
            block_javascript: false,
            block_stylesheets: false,
            block_visuals: false,
            block_ads: false,
            block_analytics: true,
            track_requests: true,
            track_responses: true,
            wait_for_delay_ms: 200,
            wait_for_idle_network_ms: 2000,
            wait_for_selector_ms: 5000,
            wait_for_selector: "body".to_owned(),
            block_assets: true,
            viewport_width,
            viewport_height,
            user_agent:
                "Mozilla/5.0 (Macintosh; Intel Mac OS X 10_15_7) AppleWebKit/537.36 (KHTML, like Gecko) Chrome/136.0.0.0 Safari/537.36".to_owned(),
            stealth: true,
            return_page_links: true,
            advanced_fingerprint: false,
            chrome_connection_url,
        }
    }
}

} // verus!
