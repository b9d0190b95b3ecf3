use crawlcore::job::{PageEvent, finish_match};

#[test]
fn finish_match_renders_markdown() {
    let target = String::from("https://t.test");
    let e = PageEvent {
        url: String::from("https://t.test"),
        empty: false,
        html: String::from("<html><body><h1>Title</h1><p>Some text.</p></body></html>"),
    };
    let r = finish_match(&target, &e);
    assert_eq!(r.source, "https://t.test");
    // The transformation rewrites the page: the markdown is not the raw HTML.
    assert_ne!(r.content, e.html);
    assert!(r.content.contains("Title"));
    assert!(!r.content.contains("<h1>"));
}
