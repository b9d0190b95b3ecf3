//! Per-URL orchestration of a batch.
//!
//! Each URL of a batch is handled on its own: consult the cache; on a miss
//! run a crawl job; write a completed result into the cache before handing
//! it back; and drop failed or unmatched URLs from the response without
//! touching their siblings.  The concurrency lives in the surrounding
//! binary — these functions are the decisions it drives, one URL at a
//! time, against the shared cache.

use vstd::prelude::*;

use crate::CachedResult;
use crate::cache::CrawlCache;
use crate::cache::put_effect;

verus! {

/// The decision for one URL after consulting the cache.
pub enum UrlPlan {
    /// A live cached result: answer from it, run no crawl job.
    UseCached(CachedResult),
    /// Nothing usable cached: a crawl job is needed.
    NeedsCrawl,
}

/// The outcome of one crawl job, as handed back by its driver.
pub enum JobOutcome {
    /// The target page was observed and transformed.
    Completed(CachedResult),
    /// The stream ended without the target page: an absence, not an error.
    NoMatch,
    /// The engine session could not be built for this URL.
    EngineError,
}

/// One entry of the batch response: the transformed content and the URL it
/// came from.
pub struct BatchEntry {
    pub page_content: String,
    pub source: String,
}

/// Consults the cache for one URL at second `now`.  Exactly the URLs with
/// a live entry short-circuit to its content; all others need a crawl.
pub fn plan_for_url(cache: &CrawlCache, url: &String, now: u64) -> (p: UrlPlan)
    ensures
        match p {
            UrlPlan::UseCached(v) => cache.lookup(url@, now as int) == Some(v.content@)
                && v.source@ == url@,
            UrlPlan::NeedsCrawl => cache.lookup(url@, now as int) is None,
        },
{
    match cache.get(url, now) {
        Some(v) => UrlPlan::UseCached(v),
        None => UrlPlan::NeedsCrawl,
    }
}

/// Applies one crawl job's outcome.  A completed result is written into
/// the cache before it is handed back, so concurrent lookups can observe
/// it as soon as it lands; a missing page or a failed engine build changes
/// nothing and yields nothing — one URL's failure stays its own and never
/// touches the rest of the batch.
pub fn record_outcome(cache: &mut CrawlCache, outcome: JobOutcome, now: u64) -> (r: Option<
    CachedResult,
>)
    requires
        old(cache).wf(),
    ensures
        final(cache).wf(),
        match outcome {
            JobOutcome::Completed(res) => (match r {
                Some(v) => v.source@ == res.source@ && v.content@ == res.content@,
                None => false,
            }) && put_effect(*old(cache), *final(cache), res.source@, res.content@, now as int),
            JobOutcome::NoMatch => r is None && *final(cache) == *old(cache),
            JobOutcome::EngineError => r is None && *final(cache) == *old(cache),
        },
{
    match outcome {
        JobOutcome::Completed(res) => {
            let handed = res.duplicate();
            cache.put(res, now);
            Some(handed)
        }
        JobOutcome::NoMatch => None,
        JobOutcome::EngineError => None,
    }
}

/// The successful results among the per-URL outcomes, in order.
pub open spec fn kept_results(s: Seq<Option<CachedResult>>) -> Seq<CachedResult>
    decreases s.len(),
{
    if s.len() == 0 {
        Seq::empty()
    } else {
        let rest = kept_results(s.drop_first());
        match s[0] {
            Some(v) => seq![v] + rest,
            None => rest,
        }
    }
}

/// Appending one outcome appends its result, or nothing.
proof fn lemma_kept_results_snoc(s: Seq<Option<CachedResult>>, o: Option<CachedResult>)
    ensures
        kept_results(s.push(o)) == kept_results(s) + (match o {
            Some(v) => seq![v],
            None => Seq::<CachedResult>::empty(),
        }),
    decreases s.len(),
{
    let appended = (match o {
        Some(v) => seq![v],
        None => Seq::<CachedResult>::empty(),
    });
    if s.len() == 0 {
        assert(s.push(o)[0] == o);
        assert(s.push(o).drop_first() =~= s);
        assert(kept_results(s) =~= Seq::<CachedResult>::empty());
        assert(kept_results(s.push(o)) =~= kept_results(s) + appended);
    } else {
        assert(s.push(o)[0] == s[0]);
        assert(s.push(o).drop_first() =~= s.drop_first().push(o));
        lemma_kept_results_snoc(s.drop_first(), o);
        assert(kept_results(s.push(o)) =~= kept_results(s) + appended);
    }
}

/// Assembles the batch response from the per-URL outcomes, in completion
/// order.  Law: partial-failure isolation — exactly the successes appear,
/// each unchanged; the failures are silently omitted and abort nothing.
pub fn assemble_batch(outcomes: &Vec<Option<CachedResult>>) -> (r: Vec<BatchEntry>)
    ensures
        r@.len() == kept_results(outcomes@).len(),
        forall|i: int|
            0 <= i < r@.len() ==> r@[i].source@ == kept_results(outcomes@)[i].source@
                && r@[i].page_content@ == kept_results(outcomes@)[i].content@,
{
    let n = outcomes.len();
    let mut r: Vec<BatchEntry> = Vec::new();
    let mut i: usize = 0;
    while i < n
        invariant
            n == outcomes@.len(),
            i <= n,
            r@.len() == kept_results(outcomes@.take(i as int)).len(),
            forall|j: int|
                0 <= j < r@.len() ==> r@[j].source@ == kept_results(outcomes@.take(i as int))[j].source@
                    && r@[j].page_content@ == kept_results(outcomes@.take(i as int))[j].content@,
        decreases n - i,
    {
        proof {
            assert(outcomes@.take(i + 1) =~= outcomes@.take(i as int).push(outcomes@[i as int]));
            lemma_kept_results_snoc(outcomes@.take(i as int), outcomes@[i as int]);
        }
        match &outcomes[i] {
            Some(v) => {
                r.push(BatchEntry { page_content: v.content.clone(), source: v.source.clone() });
            }
            None => {}
        }
        i += 1;
    }
    proof {
        assert(outcomes@.take(n as int) =~= outcomes@);
    }
    r
}

/// Law: idempotent cache hit.  Once a completed crawl for `url` has been
/// recorded at second `t0`, any plan for the same URL at a second within
/// the entry's lifetime finds the cached copy, byte-identical to what was
/// stored — so the engine is not invoked a second time.
pub proof fn lemma_idempotent_hit(
    pre: CrawlCache,
    post: CrawlCache,
    url: Seq<char>,
    content: Seq<char>,
    t0: int,
    t1: int,
)
    requires
        !pre.disabled(),
        put_effect(pre, post, url, content, t0),
        t0 <= t1 < t0 + pre.ttl(),
    ensures
        post.lookup(url, t1) == Some(content),
{
    crate::cache::lemma_fresh_hit(post, url, content, t0, t1);
}

} // verus!
