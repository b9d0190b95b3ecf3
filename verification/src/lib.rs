//! Concurrent crawl orchestration and caching core.
//!
//! The library holds the decision logic of a single-page crawling service:
//! a time- and capacity-bounded cache of crawl results, the per-job event
//! stream consumption rules, the per-URL orchestration steps, the health
//! probe classification, and the lifecycle (graceful drain) state machine.
//! Network and browser-engine I/O live outside, in the surrounding binary,
//! which feeds this library plain values and acts on its decisions.

use vstd::prelude::*;

pub mod cache;
pub mod engine;
pub mod health;
pub mod job;
pub mod lifecycle;
pub mod orchestrator;
pub mod settings;

verus! {

/// One successfully crawled and transformed page, as held by the cache and
/// returned in a batch: the requested URL and its markdown rendering.
pub struct CachedResult {
    pub source: String,
    pub content: String,
}

impl CachedResult {
    /// An independent copy carrying the same source and content.
    pub fn duplicate(&self) -> (r: CachedResult)
        ensures
            r.source@ == self.source@,
            r.content@ == self.content@,
    {
        CachedResult { source: self.source.clone(), content: self.content.clone() }
    }
}

} // verus!
