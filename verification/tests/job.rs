use crawlcore::job::{CrawlJob, CrawlJobConfig, PageEvent, StreamAction, scan_events};

fn event(url: &str, empty: bool, html: &str) -> PageEvent {
    PageEvent { url: String::from(url), empty, html: String::from(html) }
}

#[test]
fn early_termination_stops_at_first_match() {
    let target = String::from("https://t.test");
    let events = vec![
        event("https://t.test", true, ""),
        event("https://other.test", false, "<p>no</p>"),
        event("https://t.test", false, "<p>yes</p>"),
        event("https://t.test", false, "<p>late</p>"),
        event("https://extra.test", false, "<p>late</p>"),
    ];
    let (matched, examined) = scan_events(&target, &events);
    assert_eq!(matched, Some(2));
    assert_eq!(examined, 3);
}

#[test]
fn stream_without_match_is_read_to_its_end() {
    let target = String::from("https://t.test");
    let events = vec![
        event("https://a.test", false, "<p>a</p>"),
        event("https://t.test", true, ""),
    ];
    let (matched, examined) = scan_events(&target, &events);
    assert_eq!(matched, None);
    assert_eq!(examined, 2);
}

#[test]
fn job_ignores_everything_after_its_match() {
    let mut job = CrawlJob::new(String::from("https://t.test"));
    assert!(matches!(
        job.observe(event("https://t.test", true, "")),
        StreamAction::KeepConsuming
    ));
    assert!(matches!(
        job.observe(event("https://other.test", false, "<p>no</p>")),
        StreamAction::KeepConsuming
    ));
    assert!(matches!(
        job.observe(event("https://t.test", false, "<p>yes</p>")),
        StreamAction::StopCrawl
    ));
    assert!(matches!(
        job.observe(event("https://t.test", false, "<p>later</p>")),
        StreamAction::StopCrawl
    ));
    let held = job.into_match().expect("job holds its match");
    assert_eq!(held.html, "<p>yes</p>");
}

#[test]
fn job_config_fixes_the_single_page_policy() {
    let c = CrawlJobConfig::for_url(
        String::from("https://t.test"),
        Some(String::from("http://127.0.0.1:9222/json/version")),
    );
    assert_eq!(c.target_url, "https://t.test");
    assert_eq!(c.page_limit, 1);
    assert!(!c.block_javascript);
    assert!(!c.block_stylesheets);
    assert!(!c.block_visuals);
    assert!(!c.block_ads);
    assert!(c.block_analytics);
    assert!(c.track_requests);
    assert!(c.track_responses);
    assert_eq!(c.wait_for_delay_ms, 200);
    assert_eq!(c.wait_for_idle_network_ms, 2000);
    assert_eq!(c.wait_for_selector_ms, 5000);
    assert_eq!(c.wait_for_selector, "body");
    assert!(c.block_assets);
    assert!((1024..=1920).contains(&c.viewport_width));
    assert!((768..=1080).contains(&c.viewport_height));
    assert!(c.user_agent.contains("Mozilla/5.0"));
    assert!(c.stealth);
    assert!(c.return_page_links);
    assert!(!c.advanced_fingerprint);
    assert_eq!(c.chrome_connection_url.as_deref(), Some("http://127.0.0.1:9222/json/version"));
}
