use crawlcore::CachedResult;
use crawlcore::cache::CrawlCache;
use crawlcore::orchestrator::{JobOutcome, UrlPlan, assemble_batch, plan_for_url, record_outcome};

fn result(source: &str, content: &str) -> CachedResult {
    CachedResult { source: String::from(source), content: String::from(content) }
}

#[test]
fn partial_failure_isolation() {
    let mut cache = CrawlCache::new(600, 1000);
    let good = String::from("https://good.test");
    let bad = String::from("https://bad.test");
    let now = 100;

    assert!(matches!(plan_for_url(&cache, &good, now), UrlPlan::NeedsCrawl));
    assert!(matches!(plan_for_url(&cache, &bad, now), UrlPlan::NeedsCrawl));

    let good_outcome = record_outcome(
        &mut cache,
        JobOutcome::Completed(result("https://good.test", "# Good page")),
        now,
    );
    let bad_outcome = record_outcome(&mut cache, JobOutcome::NoMatch, now);

    let batch = assemble_batch(&vec![good_outcome, bad_outcome]);
    assert_eq!(batch.len(), 1);
    assert_eq!(batch[0].source, "https://good.test");
    assert_eq!(batch[0].page_content, "# Good page");
}

#[test]
fn engine_error_is_dropped_not_raised() {
    let mut cache = CrawlCache::new(600, 1000);
    let outcome = record_outcome(&mut cache, JobOutcome::EngineError, 100);
    assert!(outcome.is_none());
    assert_eq!(cache.len(), 0);
}

#[test]
fn idempotent_cache_hit() {
    let mut cache = CrawlCache::new(600, 1000);
    let url = String::from("https://a.test");
    let mut crawls = 0;

    // First request: a miss, so the engine is invoked once.
    let first = match plan_for_url(&cache, &url, 100) {
        UrlPlan::UseCached(v) => Some(v),
        UrlPlan::NeedsCrawl => {
            crawls += 1;
            record_outcome(
                &mut cache,
                JobOutcome::Completed(result("https://a.test", "# Crawled once")),
                100,
            )
        }
    };

    // Second identical request within the TTL window: served from the cache.
    let second = match plan_for_url(&cache, &url, 400) {
        UrlPlan::UseCached(v) => Some(v),
        UrlPlan::NeedsCrawl => {
            crawls += 1;
            record_outcome(
                &mut cache,
                JobOutcome::Completed(result("https://a.test", "# Crawled twice")),
                400,
            )
        }
    };

    assert_eq!(crawls, 1);
    let first = first.expect("first request produced a result");
    let second = second.expect("second request produced a result");
    assert_eq!(first.content, second.content);
    assert_eq!(second.content, "# Crawled once");
}

#[test]
fn assemble_keeps_successes_in_order() {
    let outcomes = vec![
        None,
        Some(result("https://1.test", "one")),
        None,
        Some(result("https://2.test", "two")),
    ];
    let batch = assemble_batch(&outcomes);
    assert_eq!(batch.len(), 2);
    assert_eq!(batch[0].source, "https://1.test");
    assert_eq!(batch[0].page_content, "one");
    assert_eq!(batch[1].source, "https://2.test");
    assert_eq!(batch[1].page_content, "two");
}

#[test]
fn assemble_of_failures_is_empty_not_an_error() {
    let batch = assemble_batch(&vec![None, None, None]);
    assert!(batch.is_empty());
}
