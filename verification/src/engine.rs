//! Bindings to the external crawling engine's pure helpers.
//!
//! The engine itself — page navigation, DOM waiting, interception — is
//! asynchronous I/O and lives outside the library.  The two calls below
//! only compute: rendering captured content to markdown, and drawing a
//! randomized desktop viewport.  Each is taken on trust with the contract
//! its source supports.

use vstd::prelude::*;

verus! {

/// The markdown rendering of a page with the given resolved URL and raw
/// HTML.  The rendering is involved, so it is only named here; the trusted
/// call below is the sole source of values of it.
pub uninterp spec fn markdown_of(url: Seq<char>, html: Seq<char>) -> Seq<char>;

/// Relies on spider_transformations' `transform_content` with the markdown
/// return format: the rendering depends on the page's URL and raw HTML
/// alone.
#[verifier::external_body]
pub(crate) fn transform_markdown(url: &String, html: &String) -> (r: String)
    ensures
        r@ == markdown_of(url@, html@),
{
    let mut conf = spider_transformations::transformation::content::TransformConfig::default();
    conf.return_format = spider_transformations::transformation::content::ReturnFormat::Markdown;
    let mut res = spider::utils::PageResponse::default();
    res.content = Some(html.as_bytes().to_vec());
    let page = spider::page::build(url.as_str(), res);
    spider_transformations::transformation::content::transform_content(
        &page,
        &conf,
        &None,
        &None,
        &None,
    )
}

/// Relies on spider's `randomize_viewport` for the desktop device class:
/// every viewport it draws has a width in 1024..=1920 and a height in
/// 768..=1080.  The draw is random, so only those bounds are stated.
#[verifier::external_body]
pub(crate) fn random_desktop_viewport() -> (r: (u32, u32))
    ensures
        1024 <= r.0 <= 1920,
        768 <= r.1 <= 1080,
{
    let v = spider::spider_fingerprint::spoof_viewport::randomize_viewport(
        &spider::spider_fingerprint::spoof_viewport::DeviceType::Desktop,
    );
    (v.width, v.height)
}

} // verus!
