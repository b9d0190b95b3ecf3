use crawlcore::CachedResult;
use crawlcore::cache::CrawlCache;

fn result(source: &str, content: &str) -> CachedResult {
    CachedResult { source: String::from(source), content: String::from(content) }
}

#[test]
fn hit_within_ttl() {
    let mut cache = CrawlCache::new(600, 1000);
    cache.put(result("https://a.test", "# A"), 100);
    let got = cache.get(&String::from("https://a.test"), 400).expect("entry is alive");
    assert_eq!(got.source, "https://a.test");
    assert_eq!(got.content, "# A");
}

#[test]
fn miss_strictly_after_ttl() {
    let mut cache = CrawlCache::new(600, 1000);
    cache.put(result("https://a.test", "# A"), 100);
    assert!(cache.get(&String::from("https://a.test"), 701).is_none());
}

#[test]
fn miss_for_unknown_key() {
    let mut cache = CrawlCache::new(600, 1000);
    cache.put(result("https://a.test", "# A"), 100);
    assert!(cache.get(&String::from("https://b.test"), 100).is_none());
}

#[test]
fn capacity_never_exceeded() {
    let mut cache = CrawlCache::new(600, 3);
    for i in 0..10u32 {
        cache.put(result(&format!("https://{}.test", i), "body"), 100 + u64::from(i));
        assert!(cache.len() <= 3);
    }
    assert_eq!(cache.len(), 3);
    let newest = cache.get(&String::from("https://9.test"), 110).expect("newest entry present");
    assert_eq!(newest.content, "body");
}

#[test]
fn replacement_keeps_one_entry_per_key() {
    let mut cache = CrawlCache::new(600, 10);
    cache.put(result("https://a.test", "first"), 100);
    cache.put(result("https://a.test", "second"), 200);
    assert_eq!(cache.len(), 1);
    let got = cache.get(&String::from("https://a.test"), 300).expect("entry is alive");
    assert_eq!(got.content, "second");
}

#[test]
fn zero_ttl_always_misses() {
    let mut cache = CrawlCache::new(0, 1000);
    cache.put(result("https://a.test", "# A"), 100);
    assert!(cache.get(&String::from("https://a.test"), 100).is_none());
    assert!(cache.get(&String::from("https://b.test"), 100).is_none());
}

#[test]
fn zero_capacity_always_misses() {
    let mut cache = CrawlCache::new(600, 0);
    cache.put(result("https://a.test", "# A"), 100);
    assert!(cache.get(&String::from("https://a.test"), 100).is_none());
    assert_eq!(cache.len(), 0);
}

#[test]
fn repeated_get_is_byte_identical() {
    let mut cache = CrawlCache::new(600, 1000);
    cache.put(result("https://a.test", "# Exact bytes"), 100);
    let first = cache.get(&String::from("https://a.test"), 150).expect("first read");
    let second = cache.get(&String::from("https://a.test"), 200).expect("second read");
    assert_eq!(first.content, second.content);
    assert_eq!(first.source, second.source);
}
