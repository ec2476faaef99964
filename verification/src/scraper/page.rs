//! Reading a chapter page: the title by ordered fallback, the body from the
//! paragraphs of the site's content container.

use crate::model::opt_text;
use crate::scraper::dom::{dom_select, picked_views, select_elements, Picked};
use crate::scraper::error::{ErrorView, ScraperError};
use crate::scraper::{str_views, strip_suffix_chars, stripped_title, Site};
use crate::text::{
    append_str, chars_of, debug_quoted, debug_text, decimal, escaped, push_decimal, push_escaped,
    string_of, trim_chars, trimmed,
};
use vstd::prelude::*;

verus! {

/// What the DOM gives for one query: per match its text, its first text
/// node and one attribute.
pub type Picks = Seq<(Seq<char>, Option<Seq<char>>, Option<Seq<char>>)>;

// ---------------------------------------------------------------------------
// Where each site keeps things
// ---------------------------------------------------------------------------

pub open spec fn heading_selector(site: Site) -> Seq<char> {
    match site {
        Site::RoyalRoad => "h1.font-white.break-word"@,
        Site::ScribbleHub => "div.chapter-title"@,
    }
}

pub open spec fn container_selector(site: Site) -> Seq<char> {
    match site {
        Site::RoyalRoad => "div.chapter-inner.chapter-content"@,
        Site::ScribbleHub => "#chp_raw.chp_raw"@,
    }
}

pub open spec fn paragraph_selector(site: Site) -> Seq<char> {
    match site {
        Site::RoyalRoad => "div.chapter-inner.chapter-content > p"@,
        Site::ScribbleHub => "#chp_raw.chp_raw > p"@,
    }
}

/// The suffixes that a site puts behind its page titles.
pub open spec fn site_suffixes(site: Site) -> Seq<Seq<char>> {
    match site {
        Site::RoyalRoad => seq![" _ Royal Road"@, " - Royal Road"@, " | Royal Road"@],
        Site::ScribbleHub => seq![" | Scribble Hub"@, " - Scribble Hub"@],
    }
}

pub fn heading_selector_of(site: Site) -> (s: &'static str)
    ensures
        s@ == heading_selector(site),
{
    match site {
        Site::RoyalRoad => "h1.font-white.break-word",
        Site::ScribbleHub => "div.chapter-title",
    }
}

pub fn container_selector_of(site: Site) -> (s: &'static str)
    ensures
        s@ == container_selector(site),
{
    match site {
        Site::RoyalRoad => "div.chapter-inner.chapter-content",
        Site::ScribbleHub => "#chp_raw.chp_raw",
    }
}

pub fn paragraph_selector_of(site: Site) -> (s: &'static str)
    ensures
        s@ == paragraph_selector(site),
{
    match site {
        Site::RoyalRoad => "div.chapter-inner.chapter-content > p",
        Site::ScribbleHub => "#chp_raw.chp_raw > p",
    }
}

pub fn site_suffixes_of(site: Site) -> (v: Vec<&'static str>)
    ensures
        str_views(v@) == site_suffixes(site),
{
    let mut v: Vec<&'static str> = Vec::new();
    match site {
        Site::RoyalRoad => {
            v.push(" _ Royal Road");
            v.push(" - Royal Road");
            v.push(" | Royal Road");
        },
        Site::ScribbleHub => {
            v.push(" | Scribble Hub");
            v.push(" - Scribble Hub");
        },
    }
    assert(str_views(v@) =~= site_suffixes(site));
    v
}

// ---------------------------------------------------------------------------
// Title and body
// ---------------------------------------------------------------------------

/// `Some(t)` where `t` is not empty.
pub open spec fn non_empty(t: Seq<char>) -> Option<Seq<char>> {
    if t.len() > 0 {
        Some(t)
    } else {
        None
    }
}

/// The trimmed text of the first match, where it is not empty.
pub open spec fn first_text(picks: Picks) -> Option<Seq<char>> {
    if picks.len() > 0 {
        non_empty(trimmed(picks[0].0))
    } else {
        None
    }
}

/// An optional text that is there and not empty.
pub open spec fn filled(o: Option<Seq<char>>) -> Option<Seq<char>> {
    match o {
        Some(t) => non_empty(t),
        None => None,
    }
}

/// The attribute of the first match, where it has one.
pub open spec fn first_attr(picks: Picks) -> Option<Seq<char>> {
    if picks.len() > 0 {
        picks[0].2
    } else {
        None
    }
}

/// The first text node of the first match, where it has one.
pub open spec fn first_lead(picks: Picks) -> Option<Seq<char>> {
    if picks.len() > 0 {
        picks[0].1
    } else {
        None
    }
}

/// A raw title source cleaned of the site's suffix, where something is left.
pub open spec fn cleaned(raw: Option<Seq<char>>, site: Site) -> Option<Seq<char>> {
    match raw {
        Some(t) => non_empty(stripped_title(t, site_suffixes(site))),
        None => None,
    }
}

/// The title made up where the page gives none.
pub open spec fn numbered_title(index: u32) -> Seq<char> {
    "Chapter "@ + decimal(index as nat)
}

/// The chapter title: the site's heading, else the title meta tag (on the
/// site that has one), else the page title, the last two without the site
/// suffix; else a title made up from the index.
pub open spec fn chapter_title(
    site: Site,
    heading: Picks,
    meta: Picks,
    title: Picks,
    index: u32,
) -> Seq<char> {
    if let Some(t) = first_text(heading) {
        t
    } else if let Some(t) = (if site == Site::RoyalRoad {
        cleaned(first_attr(meta), site)
    } else {
        None
    }) {
        t
    } else if let Some(t) = cleaned(first_lead(title), site) {
        t
    } else {
        numbered_title(index)
    }
}

/// One paragraph of markup around the escaped, trimmed text.
pub open spec fn paragraph(text: Seq<char>) -> Seq<char> {
    "<p>"@ + escaped(trimmed(text)) + "</p>"@
}

/// The body: one paragraph of markup for each paragraph found, in order.
pub open spec fn chapter_body(paragraphs: Picks) -> Seq<char>
    decreases paragraphs.len(),
{
    if paragraphs.len() == 0 {
        Seq::<char>::empty()
    } else {
        chapter_body(paragraphs.drop_last()) + paragraph(paragraphs.last().0)
    }
}

/// What a chapter page holds: title and body, or the failure to find the
/// content container.
pub open spec fn chapter_of_picks(
    site: Site,
    heading: Picks,
    meta: Picks,
    title: Picks,
    container: Picks,
    paragraphs: Picks,
    index: u32,
    url: Seq<char>,
) -> Result<(Seq<char>, Seq<char>), ErrorView> {
    if container.len() == 0 {
        Err(ErrorView::ParseChapter { index, url })
    } else {
        Ok((chapter_title(site, heading, meta, title, index), chapter_body(paragraphs)))
    }
}

pub open spec fn page_result(r: Result<(String, String), ScraperError>) -> Result<
    (Seq<char>, Seq<char>),
    ErrorView,
> {
    match r {
        Ok(p) => Ok((p.0@, p.1@)),
        Err(e) => Err(e@),
    }
}

/// The trimmed text of the first match, where it is not empty.
pub fn first_text_of(picks: &Vec<Picked>) -> (r: Option<String>)
    ensures
        opt_text(r) == first_text(picked_views(picks@)),
{
    if picks.len() > 0 {
        let chars = chars_of(picks[0].text.as_str());
        let t = trim_chars(chars.as_slice());
        if t.len() > 0 {
            return Some(string_of(t.as_slice()));
        }
    }
    None
}

/// The attribute of the first match, where it has one that is not empty.
pub fn first_filled_attr_of(picks: &Vec<Picked>) -> (r: Option<String>)
    ensures
        opt_text(r) == filled(first_attr(picked_views(picks@))),
{
    if picks.len() > 0 {
        if let Some(a) = &picks[0].attr {
            if a.as_str().unicode_len() > 0 {
                return Some(a.clone());
            }
        }
    }
    None
}

fn numbered_title_of(index: u32) -> (t: Vec<char>)
    ensures
        t@ == numbered_title(index),
{
    let mut t = chars_of("Chapter ");
    push_decimal(&mut t, index as u64);
    t
}

fn clean_title(raw: &str, site: Site) -> (r: Option<Vec<char>>)
    ensures
        match r {
            Some(t) => cleaned(Some(raw@), site) == Some(t@),
            None => cleaned(Some(raw@), site) is None,
        },
{
    let suffixes = site_suffixes_of(site);
    let chars = chars_of(raw);
    let t = strip_suffix_chars(chars.as_slice(), suffixes.as_slice());
    if t.len() > 0 {
        Some(t)
    } else {
        None
    }
}

fn title_of_picks(
    site: Site,
    heading: &Vec<Picked>,
    meta: &Vec<Picked>,
    title: &Vec<Picked>,
    index: u32,
) -> (t: Vec<char>)
    ensures
        t@ == chapter_title(
            site,
            picked_views(heading@),
            picked_views(meta@),
            picked_views(title@),
            index,
        ),
{
    if heading.len() > 0 {
        let chars = chars_of(heading[0].text.as_str());
        let t = trim_chars(chars.as_slice());
        if t.len() > 0 {
            return t;
        }
    }
    if site == Site::RoyalRoad && meta.len() > 0 {
        if let Some(raw) = &meta[0].attr {
            if let Some(t) = clean_title(raw.as_str(), site) {
                return t;
            }
        }
    }
    if title.len() > 0 {
        if let Some(raw) = &title[0].lead {
            if let Some(t) = clean_title(raw.as_str(), site) {
                return t;
            }
        }
    }
    numbered_title_of(index)
}

fn body_of_picks(paragraphs: &Vec<Picked>) -> (b: Vec<char>)
    ensures
        b@ == chapter_body(picked_views(paragraphs@)),
{
    let ghost all = picked_views(paragraphs@);
    let mut b: Vec<char> = Vec::new();
    let mut i: usize = 0;
    assert(b@ =~= chapter_body(all.take(0)));
    while i < paragraphs.len()
        invariant
            i <= paragraphs.len(),
            all == picked_views(paragraphs@),
            b@ == chapter_body(all.take(i as int)),
        decreases paragraphs.len() - i,
    {
        let ghost before = b@;
        assert(all.take(i + 1).drop_last() =~= all.take(i as int));
        let chars = chars_of(paragraphs[i].text.as_str());
        let t = trim_chars(chars.as_slice());
        append_str(&mut b, "<p>");
        push_escaped(&mut b, t.as_slice());
        append_str(&mut b, "</p>");
        assert(b@ =~= before + paragraph(all[i as int].0));
        i += 1;
    }
    assert(all.take(paragraphs.len() as int) =~= all);
    b
}

/// Title and body of a chapter page from what the DOM gave for the five
/// queries on it. A page without content container is a parse failure; one
/// whose container has no paragraph has an empty body.
pub fn chapter_from_picks(
    site: Site,
    heading: &Vec<Picked>,
    meta: &Vec<Picked>,
    title: &Vec<Picked>,
    container: &Vec<Picked>,
    paragraphs: &Vec<Picked>,
    index: u32,
    url: &str,
) -> (r: Result<(String, String), ScraperError>)
    ensures
        page_result(r) == chapter_of_picks(
            site,
            picked_views(heading@),
            picked_views(meta@),
            picked_views(title@),
            picked_views(container@),
            picked_views(paragraphs@),
            index,
            url@,
        ),
{
    if container.len() == 0 {
        return Err(ScraperError::ParseChapter { index, url: url.to_string() });
    }
    let t = title_of_picks(site, heading, meta, title, index);
    let b = body_of_picks(paragraphs);
    Ok((string_of(t.as_slice()), string_of(b.as_slice())))
}

// ---------------------------------------------------------------------------
// Queries
// ---------------------------------------------------------------------------

/// The message for a selector that the DOM does not take: the selector
/// in its `Debug` form, and the parser's reason.
pub open spec fn selector_message(selector: Seq<char>, reason: Seq<char>) -> Seq<char> {
    "invalid selector "@ + debug_text(selector) + ": "@ + reason
}

/// The error for a selector that the DOM does not take.
pub fn selector_error(selector: &str, reason: &str) -> (e: ScraperError)
    ensures
        e@ == (ErrorView::ParseStoryPage { message: selector_message(selector@, reason@) }),
{
    let mut m = chars_of("invalid selector ");
    let quoted = debug_quoted(selector);
    append_str(&mut m, quoted.as_str());
    append_str(&mut m, ": ");
    append_str(&mut m, reason);
    ScraperError::ParseStoryPage { message: string_of(m.as_slice()) }
}

/// What a query gives: the matches, or the failure of the selector.
pub open spec fn queried(html: Seq<char>, selector: Seq<char>, attr: Seq<char>) -> Result<
    Picks,
    ErrorView,
> {
    match dom_select(html, selector, attr) {
        Ok(picks) => Ok(picks),
        Err(reason) => Err(
            ErrorView::ParseStoryPage { message: selector_message(selector, reason) },
        ),
    }
}

pub open spec fn picks_result(r: Result<Vec<Picked>, ScraperError>) -> Result<Picks, ErrorView> {
    match r {
        Ok(v) => Ok(picked_views(v@)),
        Err(e) => Err(e@),
    }
}

/// Asks the DOM for the matches of `selector` in `html`.
pub fn query(html: &str, selector: &str, attr: &str) -> (r: Result<Vec<Picked>, ScraperError>)
    ensures
        picks_result(r) == queried(html@, selector@, attr@),
{
    match select_elements(html, selector, attr) {
        Ok(v) => Ok(v),
        Err(reason) => Err(selector_error(selector, reason.as_str())),
    }
}

/// What reading the chapter page `html` of `site` gives.
pub open spec fn chapter_page(site: Site, html: Seq<char>, index: u32, url: Seq<char>) -> Result<
    (Seq<char>, Seq<char>),
    ErrorView,
> {
    match queried(html, heading_selector(site), ""@) {
        Err(e) => Err(e),
        Ok(heading) => match queried(html, "meta[property=\"og:title\"]"@, "content"@) {
            Err(e) => Err(e),
            Ok(meta) => match queried(html, "title"@, ""@) {
                Err(e) => Err(e),
                Ok(title) => match queried(html, container_selector(site), ""@) {
                    Err(e) => Err(e),
                    Ok(container) => match queried(html, paragraph_selector(site), ""@) {
                        Err(e) => Err(e),
                        Ok(paragraphs) => chapter_of_picks(
                            site,
                            heading,
                            meta,
                            title,
                            container,
                            paragraphs,
                            index,
                            url,
                        ),
                    },
                },
            },
        },
    }
}

/// Reads title and body from the chapter page `html` of `site`.
pub fn parse_chapter_page(site: Site, html: &str, index: u32, url: &str) -> (r: Result<
    (String, String),
    ScraperError,
>)
    ensures
        page_result(r) == chapter_page(site, html@, index, url@),
{
    let heading = query(html, heading_selector_of(site), "")?;
    let meta = query(html, "meta[property=\"og:title\"]", "content")?;
    let title = query(html, "title", "")?;
    let container = query(html, container_selector_of(site), "")?;
    let paragraphs = query(html, paragraph_selector_of(site), "")?;
    chapter_from_picks(site, &heading, &meta, &title, &container, &paragraphs, index, url)
}

} // verus!
