//! Site adapters and crawling: the supported sites, the policies of a crawl,
//! site resolution and the title clean-up that both adapters share.

pub mod client;
pub mod crawl;
pub mod dom;
pub mod entry;
pub mod error;
pub mod json;
pub mod laws;
pub mod metadata;
pub mod page;
pub mod royalroad;
pub mod scribblehub;
pub mod toc;
pub mod weburl;

pub use client::{PoliteClient, PoliteClientBuilder};
pub use error::ScraperError;

use crate::model::Book;
use crate::scraper::error::ErrorView;
use crate::scraper::weburl::{parse_url, url_host, url_parse_error};
use crate::text::{
    chars_of,
    contains_text,
    copy_range,
    ends_with,
    has_suffix,
    has_text,
    string_of,
    trim_chars,
    trimmed,
};
use vstd::prelude::*;

verus! {

/// What to do with a chapter that the site keeps behind a paywall.
#[derive(Debug, Clone, Copy, PartialEq, Eq, Structural)]
pub enum LockedChapterBehavior {
    /// Leave the chapter out (the default).
    Skip,
    /// Put a placeholder chapter in its place.
    Placeholder,
    /// Fail the crawl.
    Fail,
}

/// What to do with a chapter page that has no content.
#[derive(Debug, Clone, Copy, PartialEq, Eq, Structural)]
pub enum EmptyChapterBehavior {
    /// Leave the chapter out (the default).
    Skip,
    /// Put a placeholder chapter in its place.
    Placeholder,
    /// Fail the crawl.
    Fail,
}

/// A supported site.
#[derive(Debug, Clone, Copy, PartialEq, Eq, Structural)]
pub enum Site {
    RoyalRoad,
    ScribbleHub,
}

/// The policies of one crawl. Progress and checkpoints are reported by the
/// steps of the crawl itself, so they are no part of the options.
pub struct ScrapeOptions<'a> {
    /// Inclusive range of chapter indices to fetch.
    pub chapter_range: Option<(u32, u32)>,
    /// A book from an earlier, partial crawl to go on from.
    pub initial_book: Option<&'a Book>,
    pub locked_behavior: Option<LockedChapterBehavior>,
    pub empty_chapter_behavior: Option<EmptyChapterBehavior>,
    /// List the chapters without fetching their bodies.
    pub toc_only: bool,
}

pub open spec fn site_result(r: Result<Site, ScraperError>) -> Result<Site, ErrorView> {
    match r {
        Ok(s) => Ok(s),
        Err(e) => Err(e@),
    }
}

// ---------------------------------------------------------------------------
// Title clean-up
// ---------------------------------------------------------------------------

pub open spec fn str_views(s: Seq<&str>) -> Seq<Seq<char>> {
    s.map_values(|x: &str| x@)
}

/// `t` without the first of `suffixes` that it ends with, trimmed again;
/// `t` itself where it ends with none.
pub open spec fn without_first_suffix(t: Seq<char>, suffixes: Seq<Seq<char>>) -> Seq<char>
    decreases suffixes.len(),
{
    if suffixes.len() == 0 {
        t
    } else if ends_with(t, suffixes[0]) {
        trimmed(t.take(t.len() - suffixes[0].len()))
    } else {
        without_first_suffix(t, suffixes.drop_first())
    }
}

/// The title in `s`: trimmed, and without one trailing site suffix.
pub open spec fn stripped_title(s: Seq<char>, suffixes: Seq<Seq<char>>) -> Seq<char> {
    without_first_suffix(trimmed(s), suffixes)
}

/// Stripping takes away at the end only: the title is a prefix of the
/// trimmed text, so a suffix text that occurs elsewhere in it stays; and
/// where the trimmed text ends with none of the suffixes, it is the title.
pub proof fn law_strip_only_at_end(s: Seq<char>, suffixes: Seq<Seq<char>>)
    ensures
        stripped_title(s, suffixes).len() <= trimmed(s).len(),
        stripped_title(s, suffixes) == trimmed(s).take(stripped_title(s, suffixes).len() as int),
        (forall|k: int| 0 <= k < suffixes.len() ==> !ends_with(trimmed(s), suffixes[k]))
            ==> stripped_title(s, suffixes) == trimmed(s),
    decreases suffixes.len(),
{
    let t = trimmed(s);
    if suffixes.len() == 0 {
        assert(t =~= t.take(t.len() as int));
    } else if ends_with(t, suffixes[0]) {
        crate::text::lemma_trimmed_prefix(s, t.len() - suffixes[0].len());
    } else {
        lemma_strip_rest(t, suffixes);
        law_strip_only_at_end(s, suffixes.drop_first());
        assert forall|k: int| 0 <= k < suffixes.drop_first().len() implies suffixes[k + 1]
            == suffixes.drop_first()[k] by {}
    }
}

/// A suffix that does not match is passed over.
proof fn lemma_strip_rest(t: Seq<char>, suffixes: Seq<Seq<char>>)
    requires
        suffixes.len() > 0,
        !ends_with(t, suffixes[0]),
    ensures
        without_first_suffix(t, suffixes) == without_first_suffix(t, suffixes.drop_first()),
{
}

/// `strip_title_site_suffix` on characters.
pub fn strip_suffix_chars(s: &[char], suffixes: &[&str]) -> (out: Vec<char>)
    ensures
        out@ == stripped_title(s@, str_views(suffixes@)),
{
    let t = trim_chars(s);
    let mut i: usize = 0;
    assert(str_views(suffixes@).skip(0) =~= str_views(suffixes@));
    while i < suffixes.len()
        invariant
            i <= suffixes.len(),
            t@ == trimmed(s@),
            without_first_suffix(t@, str_views(suffixes@)) == without_first_suffix(
                t@,
                str_views(suffixes@).skip(i as int),
            ),
        decreases suffixes.len() - i,
    {
        let suffix = chars_of(suffixes[i]);
        assert(str_views(suffixes@).skip(i as int)[0] == suffix@);
        if has_suffix(t.as_slice(), suffix.as_slice()) {
            let head = copy_range(t.as_slice(), 0, t.len() - suffix.len());
            assert(head@ =~= t@.take(t.len() - suffix.len()));
            return trim_chars(head.as_slice());
        }
        assert(str_views(suffixes@).skip(i as int).drop_first() =~= str_views(suffixes@).skip(
            i + 1,
        ));
        i += 1;
    }
    t
}

/// Trims `s` and strips one known site suffix from its end, so that a
/// title which holds the separator elsewhere keeps it.
pub fn strip_title_site_suffix(s: &str, suffixes: &[&str]) -> (out: String)
    ensures
        out@ == stripped_title(s@, str_views(suffixes@)),
{
    let chars = chars_of(s);
    let stripped = strip_suffix_chars(chars.as_slice(), suffixes);
    string_of(stripped.as_slice())
}

// ---------------------------------------------------------------------------
// Site resolution
// ---------------------------------------------------------------------------

/// The site that a host name belongs to.
pub open spec fn site_of_host(host: Seq<char>) -> Option<Site> {
    if contains_text(host, "royalroad.com"@) {
        Some(Site::RoyalRoad)
    } else if contains_text(host, "scribblehub.com"@) {
        Some(Site::ScribbleHub)
    } else {
        None
    }
}

/// The site of a crawl: the override where there is one, else the site of
/// the URL's host.
pub open spec fn resolved_site(url: Seq<char>, override_site: Option<Site>) -> Result<
    Site,
    ErrorView,
> {
    match override_site {
        Some(site) => Ok(site),
        None => match url_parse_error(url) {
            Some(reason) => Err(ErrorView::InvalidUrl { input: url, reason }),
            None => match url_host(url) {
                None => Err(ErrorView::InvalidUrl { input: url, reason: "URL has no host"@ }),
                Some(host) => match site_of_host(host) {
                    Some(site) => Ok(site),
                    None => Err(ErrorView::UnrecognizedHost { host }),
                },
            },
        },
    }
}

/// The site that a host name belongs to, if it is a supported one.
pub fn site_for_host(host: &str) -> (r: Option<Site>)
    ensures
        r == site_of_host(host@),
{
    let h = chars_of(host);
    let rr = chars_of("royalroad.com");
    let sh = chars_of("scribblehub.com");
    if has_text(h.as_slice(), rr.as_slice()) {
        Some(Site::RoyalRoad)
    } else if has_text(h.as_slice(), sh.as_slice()) {
        Some(Site::ScribbleHub)
    } else {
        None
    }
}

/// Which site a crawl of `url_input` goes to. An override wins
/// unconditionally; without one the URL must parse, have a host, and the
/// host must be one of a supported site.
pub fn resolve_site(url_input: &str, override_site: Option<Site>) -> (r: Result<
    Site,
    ScraperError,
>)
    ensures
        site_result(r) == resolved_site(url_input@, override_site),
{
    if let Some(site) = override_site {
        return Ok(site);
    }
    match parse_url(url_input) {
        Err(reason) => Err(ScraperError::InvalidUrl { input: url_input.to_string(), reason }),
        Ok(parts) => match parts.host {
            None => Err(
                ScraperError::InvalidUrl {
                    input: url_input.to_string(),
                    reason: "URL has no host".to_string(),
                },
            ),
            Some(host) => match site_for_host(host.as_str()) {
                Some(site) => Ok(site),
                None => Err(ScraperError::UnrecognizedHost { host }),
            },
        },
    }
}

} // verus!
