//! Scribble Hub: the series page lists its chapters page by page, each
//! chapter with an explicit order, and carries its metadata as linked data.

use crate::model::opt_text;
use crate::scraper::dom::{
    dom_rows, dom_select, picked_views, row_views, select_elements, select_rows, LinkRow, Picked,
};
use crate::scraper::error::{ErrorView, ScraperError};
use crate::scraper::metadata::{
    find_book, first_book, metadata_result, missing_metadata, missing_metadata_error, Metadata,
};
use crate::scraper::page::{
    chapter_page, filled, first_attr, first_filled_attr_of, first_text, first_text_of, page_result,
    query, queried, selector_error, selector_message, Picks,
};
use crate::scraper::royalroad::{list_failure, text_or_error, triples_result};
use crate::scraper::toc::{
    dedup_by_url,
    entries_of_triples,
    entry_views,
    first_by_url,
    sort_entries,
    sorted_by_index,
    triple_views,
    triples_of_entries,
    TocEntry,
};
use crate::scraper::weburl::{
    join_url, parse_url, url_host, url_joined, url_parse_error, url_path,
};
use crate::scraper::Site;
use crate::text::{
    after_char,
    all_digits,
    chars_of,
    contains_text,
    copy_range,
    has_prefix,
    has_text,
    is_text,
    only_digits,
    parse_u32,
    parsed_u32,
    span_until,
    starts_with,
    string_of,
    strip_leading,
    trim_chars,
    trimmed,
    until_char,
    without_leading,
};
use vstd::prelude::*;

verus! {

pub open spec fn scribblehub_base() -> Seq<char> {
    "https://www.scribblehub.com"@
}

/// Entries as (order, URL, title).
pub type Triples = Seq<(u32, Seq<char>, Seq<char>)>;

/// Rows of a link list: of each its key attribute and its links, a link
/// being a target attribute and a text.
pub type Rows = Seq<(Option<Seq<char>>, Seq<(Option<Seq<char>>, Seq<char>)>)>;

// ---------------------------------------------------------------------------
// The URL of a series
// ---------------------------------------------------------------------------

/// The numeric id in the path `/series/{id}/...` of a series URL.
pub open spec fn series_id(url: Seq<char>) -> Option<Seq<char>> {
    if url_parse_error(url) is Some {
        None
    } else if starts_with(url_path(url), "/series/"@) {
        let id = until_char(url_path(url).skip("/series/"@.len() as int), '/');
        if id.len() > 0 && all_digits(id) {
            Some(id)
        } else {
            None
        }
    } else {
        None
    }
}

/// The numeric id in a path that starts with `/series/`.
pub fn series_id_in_path(path: &str) -> (r: Option<String>)
    ensures
        opt_text(r) == (if starts_with(path@, "/series/"@) {
            let id = until_char(path@.skip("/series/"@.len() as int), '/');
            if id.len() > 0 && all_digits(id) {
                Some(id)
            } else {
                None
            }
        } else {
            None
        }),
{
    let p = chars_of(path);
    let prefix = chars_of("/series/");
    if !has_prefix(p.as_slice(), prefix.as_slice()) {
        return None;
    }
    let n = span_until(p.as_slice(), prefix.len(), '/');
    let id = copy_range(p.as_slice(), prefix.len(), prefix.len() + n);
    if id.len() > 0 && only_digits(id.as_slice()) {
        Some(string_of(id.as_slice()))
    } else {
        None
    }
}

/// The numeric id of the series that `url` names.
pub fn extract_series_id_from_url(url: &str) -> (r: Option<String>)
    ensures
        opt_text(r) == series_id(url@),
{
    match parse_url(url) {
        Err(_) => None,
        Ok(parts) => series_id_in_path(parts.path.as_str()),
    }
}

pub open spec fn wrong_host_message() -> Seq<char> {
    "Expected a Scribble Hub series URL (host scribblehub.com)."@
}

pub open spec fn chapter_url_message() -> Seq<char> {
    "Expected a series (index) URL, not a chapter URL. Use the series page, e.g. https://www.scribblehub.com/series/862913/hp-the-arcane-thief-litrpg/"@
}

pub open spec fn no_series_message() -> Seq<char> {
    "Expected a series URL containing /series/{id}/{slug}/."@
}

pub open spec fn page_failure(message: Seq<char>) -> ErrorView {
    ErrorView::ParseStoryPage { message }
}

/// What is wrong with host and path of a URL that should name a series.
pub open spec fn series_url_fault(host: Seq<char>, path: Seq<char>) -> Option<ErrorView> {
    if !contains_text(host, "scribblehub.com"@) {
        Some(page_failure(wrong_host_message()))
    } else if contains_text(path, "/read/"@) && contains_text(path, "/chapter/"@) {
        Some(page_failure(chapter_url_message()))
    } else if !contains_text(path, "/series/"@) {
        Some(page_failure(no_series_message()))
    } else {
        None
    }
}

/// A series URL passes unchanged; a URL that does not parse, has no host,
/// is of another site, or names a chapter or no series, is refused.
pub open spec fn series_url(url: Seq<char>) -> Result<Seq<char>, ErrorView> {
    match url_parse_error(url) {
        Some(reason) => Err(ErrorView::InvalidUrl { input: url, reason }),
        None => match url_host(url) {
            None => Err(ErrorView::InvalidUrl { input: url, reason: "URL has no host"@ }),
            Some(host) => match series_url_fault(host, url_path(url)) {
                Some(e) => Err(e),
                None => Ok(url),
            },
        },
    }
}

fn page_error(message: &str) -> (e: ScraperError)
    ensures
        e@ == page_failure(message@),
{
    ScraperError::ParseStoryPage { message: message.to_string() }
}

fn holds(hay: &Vec<char>, needle: &str) -> (r: bool)
    ensures
        r == contains_text(hay@, needle@),
{
    let n = chars_of(needle);
    has_text(hay.as_slice(), n.as_slice())
}

/// Checks host and path of a URL that should name a series.
pub fn check_series_parts(host: &str, path: &str) -> (r: Option<ScraperError>)
    ensures
        match r {
            Some(e) => series_url_fault(host@, path@) == Some(e@),
            None => series_url_fault(host@, path@) is None,
        },
{
    let h = chars_of(host);
    let p = chars_of(path);
    if !holds(&h, "scribblehub.com") {
        Some(page_error("Expected a Scribble Hub series URL (host scribblehub.com)."))
    } else if holds(&p, "/read/") && holds(&p, "/chapter/") {
        Some(
            page_error(
                "Expected a series (index) URL, not a chapter URL. Use the series page, e.g. https://www.scribblehub.com/series/862913/hp-the-arcane-thief-litrpg/",
            ),
        )
    } else if !holds(&p, "/series/") {
        Some(page_error("Expected a series URL containing /series/{id}/{slug}/."))
    } else {
        None
    }
}

/// Checks that `url` is the URL of a series, not of one of its chapters.
pub fn ensure_series_url(url: &str) -> (r: Result<String, ScraperError>)
    ensures
        text_or_error(r) == series_url(url@),
{
    match parse_url(url) {
        Err(reason) => Err(ScraperError::InvalidUrl { input: url.to_string(), reason }),
        Ok(parts) => match parts.host {
            None => Err(
                ScraperError::InvalidUrl {
                    input: url.to_string(),
                    reason: "URL has no host".to_string(),
                },
            ),
            Some(host) => match check_series_parts(host.as_str(), parts.path.as_str()) {
                Some(e) => Err(e),
                None => Ok(url.to_string()),
            },
        },
    }
}

// ---------------------------------------------------------------------------
// One page of the table of contents
// ---------------------------------------------------------------------------

/// The declared order of a row; 0 where it declares none that is a number.
pub open spec fn row_order(key: Option<Seq<char>>) -> u32 {
    match key {
        Some(k) => match parsed_u32(k) {
            Some(n) => n,
            None => 0,
        },
        None => 0,
    }
}

/// What one row gives. Of its links the first counts: the row gives
/// nothing where it has no link, or that link no target or no title; else
/// the entry with the target resolved against `base`.
pub open spec fn row_entry(
    base: Seq<char>,
    row: (Option<Seq<char>>, Seq<(Option<Seq<char>>, Seq<char>)>),
) -> Result<Option<(u32, Seq<char>, Seq<char>)>, Seq<char>> {
    if row.1.len() == 0 {
        Ok(None)
    } else {
        match row.1[0].0 {
            None => Ok(None),
            Some(href) => match url_joined(base, without_leading(href, '/')) {
                Err(e) => Err(e),
                Ok(full) => if trimmed(row.1[0].1).len() == 0 {
                    Ok(None)
                } else {
                    Ok(Some((row_order(row.0), full, trimmed(row.1[0].1))))
                },
            },
        }
    }
}

/// The entries that the rows give, in order, or the failure of the first
/// row whose target does not resolve.
pub open spec fn rows_entries(base: Seq<char>, rows: Rows) -> Result<Triples, Seq<char>>
    decreases rows.len(),
{
    if rows.len() == 0 {
        Ok(Seq::<(u32, Seq<char>, Seq<char>)>::empty())
    } else {
        match rows_entries(base, rows.drop_last()) {
            Err(e) => Err(e),
            Ok(entries) => match row_entry(base, rows.last()) {
                Err(e) => Err(e),
                Ok(Some(entry)) => Ok(entries.push(entry)),
                Ok(None) => Ok(entries),
            },
        }
    }
}

/// The entries that the lists of a page give. Of the lists the first
/// counts; a page without list has no table of contents.
pub open spec fn lists_entries(base: Seq<char>, lists: Seq<Rows>) -> Result<Triples, ErrorView> {
    if lists.len() == 0 {
        Err(list_failure("ol.toc_ol not found"@))
    } else {
        match rows_entries(base, lists[0]) {
            Err(reason) => Err(list_failure(reason)),
            Ok(entries) => Ok(entries),
        }
    }
}

/// The entries listed on one page of the table of contents.
pub open spec fn toc_page(html: Seq<char>, base: Seq<char>) -> Result<Triples, ErrorView> {
    match dom_rows(html, "ol.toc_ol"@, "li.toc_w"@, "a.toc_a"@, "order"@, "href"@) {
        Err(fault) => Err(page_failure(selector_message(fault.0, fault.1))),
        Ok(lists) => lists_entries(base, lists),
    }
}

pub open spec fn triples_or_text(r: Result<Vec<(u32, String, String)>, String>) -> Result<
    Triples,
    Seq<char>,
> {
    match r {
        Ok(v) => Ok(triple_views(v@)),
        Err(e) => Err(e@),
    }
}

proof fn lemma_rows_failure(base: Seq<char>, rows: Rows, k: int)
    requires
        0 <= k <= rows.len(),
        rows_entries(base, rows.take(k)) is Err,
    ensures
        rows_entries(base, rows) == rows_entries(base, rows.take(k)),
    decreases rows.len() - k,
{
    if k == rows.len() {
        assert(rows.take(k) =~= rows);
    } else {
        assert(rows.take(k + 1).drop_last() =~= rows.take(k));
        lemma_rows_failure(base, rows, k + 1);
    }
}

fn order_of(key: &Option<String>) -> (n: u32)
    ensures
        n == row_order(opt_text(*key)),
{
    match key {
        Some(k) => {
            let chars = chars_of(k.as_str());
            match parse_u32(chars.as_slice()) {
                Some(n) => n,
                None => 0,
            }
        },
        None => 0,
    }
}

/// The entries that the rows of a link list give.
pub fn entries_from_rows(base: &str, rows: &Vec<LinkRow>) -> (r: Result<
    Vec<(u32, String, String)>,
    String,
>)
    ensures
        triples_or_text(r) == rows_entries(base@, row_views(rows@)),
{
    let ghost all = row_views(rows@);
    let mut out: Vec<(u32, String, String)> = Vec::new();
    let mut i: usize = 0;
    assert(all.take(0) =~= Seq::<
        (Option<Seq<char>>, Seq<(Option<Seq<char>>, Seq<char>)>),
    >::empty());
    assert(triple_views(out@) =~= Seq::<(u32, Seq<char>, Seq<char>)>::empty());
    while i < rows.len()
        invariant
            i <= rows.len(),
            all == row_views(rows@),
            rows_entries(base@, all.take(i as int)) == Ok::<Triples, Seq<char>>(
                triple_views(out@),
            ),
        decreases rows.len() - i,
    {
        let ghost before = triple_views(out@);
        assert(all.take(i + 1).drop_last() =~= all.take(i as int));
        assert(all.take(i + 1).last() == all[i as int]);
        let row = &rows[i];
        if row.links.len() > 0 {
            let link = &row.links[0];
            if let Some(href) = &link.0 {
                let chars = chars_of(href.as_str());
                let relative = strip_leading(chars.as_slice(), '/');
                let reference = string_of(relative.as_slice());
                match join_url(base, reference.as_str()) {
                    Err(e) => {
                        proof {
                            lemma_rows_failure(base@, all, i + 1);
                        }
                        return Err(e);
                    },
                    Ok(full) => {
                        let text = chars_of(link.1.as_str());
                        let title = trim_chars(text.as_slice());
                        if title.len() > 0 {
                            let entry = (order_of(&row.key), full, string_of(title.as_slice()));
                            out.push(entry);
                            assert(triple_views(out@) =~= before.push(
                                (row_order(all[i as int].0), full@, trimmed(link.1@)),
                            ));
                        }
                    },
                }
            }
        }
        i += 1;
    }
    assert(all.take(rows.len() as int) =~= all);
    Ok(out)
}

/// Reads the entries listed on one page of the table of contents, as
/// (order, URL, title), URLs resolved against `base`.
pub fn parse_toc_page(html: &str, base: &str) -> (r: Result<
    Vec<(u32, String, String)>,
    ScraperError,
>)
    ensures
        triples_result(r) == toc_page(html@, base@),
{
    match select_rows(html, "ol.toc_ol", "li.toc_w", "a.toc_a", "order", "href") {
        Err(fault) => Err(selector_error(fault.0.as_str(), fault.1.as_str())),
        Ok(lists) => entries_from_lists(base, &lists),
    }
}

/// The entries that the lists of a page give: those of the first list.
pub fn entries_from_lists(base: &str, lists: &Vec<Vec<LinkRow>>) -> (r: Result<
    Vec<(u32, String, String)>,
    ScraperError,
>)
    ensures
        triples_result(r) == lists_entries(base@, crate::scraper::dom::list_views(lists@)),
{
    if lists.len() == 0 {
        return Err(ScraperError::ChapterListParse { reason: "ol.toc_ol not found".to_string() });
    }
    match entries_from_rows(base, &lists[0]) {
        Err(reason) => Err(ScraperError::ChapterListParse { reason }),
        Ok(entries) => Ok(entries),
    }
}

// ---------------------------------------------------------------------------
// Page numbers
// ---------------------------------------------------------------------------

/// The page that one query parameter names, if it is `toc=N`.
pub open spec fn param_page(param: Seq<char>) -> Option<u32> {
    if starts_with(trimmed(param), "toc="@) {
        parsed_u32(trimmed(until_char(trimmed(param).skip("toc="@.len() as int), '#')))
    } else {
        None
    }
}

/// The page named by the first parameter of the query `q` that names one;
/// page 1 where none does.
pub open spec fn page_in_query(q: Seq<char>) -> u32
    decreases q.len(),
{
    let k = until_char(q, '&').len();
    match param_page(until_char(q, '&')) {
        Some(n) => n,
        None => if k < q.len() {
            page_in_query(q.skip(k + 1 as int))
        } else {
            1
        },
    }
}

/// The query of a URL: what stands between its first and its second `?`.
pub open spec fn query_of(url: Seq<char>) -> Seq<char> {
    match after_char(url, '?') {
        Some(rest) => until_char(rest, '?'),
        None => Seq::<char>::empty(),
    }
}

/// The page of the table of contents that a URL names; page 1 where it names none.
pub open spec fn page_number(url: Seq<char>) -> u32 {
    page_in_query(query_of(url))
}

fn page_of_param(param: &[char]) -> (r: Option<u32>)
    ensures
        r == param_page(param@),
{
    let p = trim_chars(param);
    let prefix = chars_of("toc=");
    if !has_prefix(p.as_slice(), prefix.as_slice()) {
        return None;
    }
    let n = span_until(p.as_slice(), prefix.len(), '#');
    let number = copy_range(p.as_slice(), prefix.len(), prefix.len() + n);
    let t = trim_chars(number.as_slice());
    parse_u32(t.as_slice())
}

/// The page of the table of contents that a URL or a link target names.
pub fn parse_toc_page_from_url(url: &str) -> (page: u32)
    ensures
        page == page_number(url@),
{
    let u = chars_of(url);
    let head = span_until(u.as_slice(), 0, '?');
    assert(u@.skip(0) =~= u@);
    assert(u@.subrange(0, head as int) =~= until_char(u@, '?'));
    if head == u.len() {
        proof {
            assert(param_page(until_char(Seq::<char>::empty(), '&')) is None) by {
                reveal_strlit("toc=");
                assert(until_char(Seq::<char>::empty(), '&') =~= Seq::<char>::empty());
                assert(trimmed(Seq::<char>::empty()) =~= Seq::<char>::empty());
            }
        }
        return 1;
    }
    let n = span_until(u.as_slice(), head + 1, '?');
    let q = copy_range(u.as_slice(), head + 1, head + 1 + n);
    assert(q@ == query_of(url@));
    let mut from: usize = 0;
    assert(q@.skip(0) =~= q@);
    loop
        invariant
            from <= q.len(),
            page_number(url@) == page_in_query(q@.skip(from as int)),
        decreases q.len() - from,
    {
        let ghost rest = q@.skip(from as int);
        let k = span_until(q.as_slice(), from, '&');
        let param = copy_range(q.as_slice(), from, from + k);
        if let Some(page) = page_of_param(param.as_slice()) {
            return page;
        }
        if from + k == q.len() {
            return 1;
        }
        assert(rest.skip(k + 1) =~= q@.skip(from + k + 1));
        from = from + k + 1;
    }
}

// ---------------------------------------------------------------------------
// The next page
// ---------------------------------------------------------------------------

/// The target of a link, where it leads somewhere.
pub open spec fn usable_target(target: Option<Seq<char>>) -> Option<Seq<char>> {
    match target {
        Some(h) => if h.len() > 0 && h != "#"@ {
            Some(h)
        } else {
            None
        },
        None => None,
    }
}

/// The URL that a link leads to, where its target names `page` and resolves.
pub open spec fn link_to_page(
    base: Seq<char>,
    pick: (Seq<char>, Option<Seq<char>>, Option<Seq<char>>),
    page: u32,
) -> Option<Seq<char>> {
    match usable_target(pick.2) {
        Some(h) => if page_number(h) == page {
            match url_joined(base, h) {
                Ok(u) => Some(u),
                Err(_) => None,
            }
        } else {
            None
        },
        None => None,
    }
}

/// The URL of the first of the links that leads to `page`.
pub open spec fn first_link_to_page(base: Seq<char>, picks: Picks, page: u32) -> Option<Seq<char>>
    decreases picks.len(),
{
    if picks.len() == 0 {
        None
    } else {
        match link_to_page(base, picks[0], page) {
            Some(u) => Some(u),
            None => first_link_to_page(base, picks.drop_first(), page),
        }
    }
}

pub open spec fn links_to_page(base: Seq<char>, found: Result<Picks, Seq<char>>, page: u32)
    -> Option<Seq<char>> {
    match found {
        Ok(picks) => first_link_to_page(base, picks, page),
        Err(_) => None,
    }
}

/// The URL of the page after the current one. The link marked as next is
/// taken where it leads somewhere; a marked link without target ends the
/// search. Else the first link of the pagination whose target names the
/// current page plus one is taken, page links before other links.
pub open spec fn next_page(
    base: Seq<char>,
    current: Option<Seq<char>>,
    marked: Result<Picks, Seq<char>>,
    page_links: Result<Picks, Seq<char>>,
    links: Result<Picks, Seq<char>>,
) -> Option<Seq<char>> {
    match marked {
        Err(_) => None,
        Ok(m) => if m.len() > 0 && m[0].2 is None {
            None
        } else if m.len() > 0 && usable_target(m[0].2) is Some && url_joined(
            base,
            usable_target(m[0].2)->0,
        ) is Ok {
            Some(url_joined(base, usable_target(m[0].2)->0)->Ok_0)
        } else {
            let here = match current {
                Some(c) => page_number(c),
                None => 1,
            };
            if here == u32::MAX {
                None
            } else {
                match links_to_page(base, page_links, (here + 1) as u32) {
                    Some(u) => Some(u),
                    None => links_to_page(base, links, (here + 1) as u32),
                }
            }
        },
    }
}

pub open spec fn marked_selector() -> Seq<char> {
    "#pagination-mesh-toc a.page-link.next"@
}

pub open spec fn page_link_selector() -> Seq<char> {
    "#pagination-mesh-toc a.page-link[href*=\"toc=\"]"@
}

pub open spec fn link_selector() -> Seq<char> {
    "#pagination-mesh-toc a[href*=\"toc=\"]"@
}

/// The URL of the page of the table of contents after the one in `html`.
pub open spec fn next_toc_page(html: Seq<char>, base: Seq<char>, current: Option<Seq<char>>)
    -> Option<Seq<char>> {
    next_page(
        base,
        current,
        dom_select(html, marked_selector(), "href"@),
        dom_select(html, page_link_selector(), "href"@),
        dom_select(html, link_selector(), "href"@),
    )
}

pub open spec fn str_option(o: Option<&str>) -> Option<Seq<char>> {
    match o {
        Some(s) => Some(s@),
        None => None,
    }
}

fn usable(target: &Option<String>) -> (r: Option<&String>)
    ensures
        match r {
            Some(h) => usable_target(opt_text(*target)) == Some(h@),
            None => usable_target(opt_text(*target)) is None,
        },
{
    match target {
        Some(h) => {
            let chars = chars_of(h.as_str());
            if chars.len() > 0 && !is_text(chars.as_slice(), "#") {
                Some(h)
            } else {
                None
            }
        },
        None => None,
    }
}

fn find_link_to_page(base: &str, found: &Result<Vec<Picked>, String>, page: u32) -> (r: Option<
    String,
>)
    ensures
        opt_text(r) == links_to_page(base@, crate::scraper::dom::picked_result(*found), page),
{
    match found {
        Err(_) => None,
        Ok(picks) => {
            let ghost all = picked_views(picks@);
            let mut i: usize = 0;
            assert(all.skip(0) =~= all);
            while i < picks.len()
                invariant
                    i <= picks.len(),
                    all == picked_views(picks@),
                    crate::scraper::dom::picked_result(*found) == Ok::<Picks, Seq<char>>(all),
                    first_link_to_page(base@, all, page) == first_link_to_page(
                        base@,
                        all.skip(i as int),
                        page,
                    ),
                decreases picks.len() - i,
            {
                assert(all.skip(i as int).drop_first() =~= all.skip(i + 1));
                assert(all.skip(i as int)[0] == all[i as int]);
                if let Some(h) = usable(&picks[i].attr) {
                    if parse_toc_page_from_url(h.as_str()) == page {
                        if let Ok(u) = join_url(base, h.as_str()) {
                            return Some(u);
                        }
                    }
                }
                i += 1;
            }
            None
        },
    }
}

/// The URL of the next page from what the DOM gave for the three queries
/// on the pagination.
pub fn next_page_from_picks(
    base: &str,
    current: Option<&str>,
    marked: &Result<Vec<Picked>, String>,
    page_links: &Result<Vec<Picked>, String>,
    links: &Result<Vec<Picked>, String>,
) -> (r: Option<String>)
    ensures
        opt_text(r) == next_page(
            base@,
            str_option(current),
            crate::scraper::dom::picked_result(*marked),
            crate::scraper::dom::picked_result(*page_links),
            crate::scraper::dom::picked_result(*links),
        ),
{
    match marked {
        Err(_) => None,
        Ok(m) => {
            if m.len() > 0 {
                if m[0].attr.is_none() {
                    return None;
                }
                if let Some(h) = usable(&m[0].attr) {
                    if let Ok(u) = join_url(base, h.as_str()) {
                        return Some(u);
                    }
                }
            }
            let here = match current {
                Some(c) => parse_toc_page_from_url(c),
                None => 1,
            };
            if here == 0xFFFF_FFFF {
                return None;
            }
            match find_link_to_page(base, page_links, here + 1) {
                Some(u) => Some(u),
                None => find_link_to_page(base, links, here + 1),
            }
        },
    }
}

/// Finds the URL of the page of the table of contents that follows the
/// page `html`, links resolved against `series_base`.
pub fn next_toc_page_url(html: &str, series_base: &str, current_page_url: Option<&str>) -> (r:
    Option<String>)
    ensures
        opt_text(r) == next_toc_page(html@, series_base@, str_option(current_page_url)),
{
    let marked = select_elements(html, "#pagination-mesh-toc a.page-link.next", "href");
    let page_links = select_elements(
        html,
        "#pagination-mesh-toc a.page-link[href*=\"toc=\"]",
        "href",
    );
    let links = select_elements(html, "#pagination-mesh-toc a[href*=\"toc=\"]", "href");
    next_page_from_picks(series_base, current_page_url, &marked, &page_links, &links)
}

// ---------------------------------------------------------------------------
// Merging pages
// ---------------------------------------------------------------------------

/// The entries of all pages as one table of contents: sorted by declared
/// order, and of the entries with one URL only the first.
pub open spec fn merged(entries: Triples) -> Triples {
    triples_of_entries(first_by_url(sorted_by_index(entries_of_triples(entries))))
}

/// Entries as (order, URL, title) as table-of-contents entries, all unlocked.
pub fn entries_from_triples(triples: &Vec<(u32, String, String)>) -> (out: Vec<TocEntry>)
    ensures
        entry_views(out@) == entries_of_triples(triple_views(triples@)),
{
    let mut out: Vec<TocEntry> = Vec::new();
    let mut i: usize = 0;
    while i < triples.len()
        invariant
            i <= triples.len(),
            out.len() == i,
            forall|k: int|
                0 <= k < i ==> out@[k]@ == crate::scraper::toc::entry_of_triple(
                    crate::scraper::toc::triple_view(triples@[k]),
                ),
        decreases triples.len() - i,
    {
        let t = &triples[i];
        out.push(TocEntry { index: t.0, url: t.1.clone(), title: t.2.clone(), unlocked: true });
        i += 1;
    }
    assert(entry_views(out@) =~= entries_of_triples(triple_views(triples@)));
    out
}

/// Table-of-contents entries as (order, URL, title).
pub fn triples_from_entries(entries: &Vec<TocEntry>) -> (out: Vec<(u32, String, String)>)
    ensures
        triple_views(out@) == triples_of_entries(entry_views(entries@)),
{
    let mut out: Vec<(u32, String, String)> = Vec::new();
    let mut i: usize = 0;
    while i < entries.len()
        invariant
            i <= entries.len(),
            out.len() == i,
            forall|k: int|
                0 <= k < i ==> crate::scraper::toc::triple_view(out@[k])
                    == crate::scraper::toc::triple_of_entry(entries@[k]@),
        decreases entries.len() - i,
    {
        let e = &entries[i];
        out.push((e.index, e.url.clone(), e.title.clone()));
        i += 1;
    }
    assert(triple_views(out@) =~= triples_of_entries(entry_views(entries@)));
    out
}

/// Merges the entries of several pages: sorts them by declared order and
/// keeps of the entries with one URL only the first.
pub fn merge_toc_entries(all_entries: Vec<(u32, String, String)>) -> (out: Vec<
    (u32, String, String),
>)
    ensures
        triple_views(out@) == merged(triple_views(all_entries@)),
{
    let entries = entries_from_triples(&all_entries);
    let sorted = sort_entries(entries);
    let kept = dedup_by_url(sorted);
    triples_from_entries(&kept)
}

/// The merged entries are the sorted entries without later duplicates.
pub proof fn lemma_merged_entries(gathered: Triples)
    ensures
        entries_of_triples(merged(gathered)) == first_by_url(
            sorted_by_index(entries_of_triples(gathered)),
        ),
        merged(gathered).len() == first_by_url(
            sorted_by_index(entries_of_triples(gathered)),
        ).len(),
{
    let given = entries_of_triples(gathered);
    let sorted = sorted_by_index(given);
    let kept = first_by_url(sorted);
    crate::scraper::toc::lemma_sorted(given);
    crate::scraper::toc::lemma_first_by_url(sorted);
    assert forall|i: int| 0 <= i < kept.len() implies #[trigger] kept[i].unlocked by {
        assert(crate::scraper::toc::listed(kept, kept[i]));
        assert(crate::scraper::toc::listed(sorted, kept[i]));
        assert(crate::scraper::toc::listed(given, kept[i]));
        let k = choose|k: int| 0 <= k < given.len() && given[k] == kept[i];
        assert(given[k].unlocked);
    }
    assert forall|i: int| 0 <= i < kept.len() implies entries_of_triples(
        triples_of_entries(kept),
    )[i] == kept[i] by {
        assert(kept[i].unlocked);
    }
    assert(entries_of_triples(triples_of_entries(kept)) =~= kept);
}

/// The entries of all pages as one table of contents.
pub fn merged_entries(gathered: &Vec<(u32, String, String)>) -> (out: Vec<TocEntry>)
    ensures
        entry_views(out@) == entries_of_triples(merged(triple_views(gathered@))),
        out.len() == merged(triple_views(gathered@)).len(),
{
    proof {
        lemma_merged_entries(triple_views(gathered@));
    }
    let entries = entries_from_triples(gathered);
    let sorted = sort_entries(entries);
    dedup_by_url(sorted)
}

// ---------------------------------------------------------------------------
// Metadata and chapter pages
// ---------------------------------------------------------------------------

pub open spec fn either(a: Option<Seq<char>>, b: Option<Seq<char>>) -> Option<Seq<char>> {
    match a {
        Some(x) => Some(x),
        None => b,
    }
}

/// The metadata in the markup of a series page: the title from the title
/// block or the title meta tag, the author from the name in the author
/// link or the link itself, the cover from the image meta tag.
pub open spec fn metadata_of_picks(
    title: Picks,
    meta_title: Picks,
    author_name: Picks,
    author_link: Picks,
    cover: Picks,
) -> Result<Metadata, ErrorView> {
    match (
        either(first_text(title), filled(first_attr(meta_title))),
        either(first_text(author_name), first_text(author_link)),
    ) {
        (Some(t), Some(a)) => Ok((t, a, None, filled(first_attr(cover)))),
        _ => Err(missing_metadata()),
    }
}

pub open spec fn author_name_selector() -> Seq<char> {
    "div.sb_content.author div[property=\"author\"] a span.auth_name_fic"@
}

pub open spec fn author_link_selector() -> Seq<char> {
    "div.sb_content.author div[property=\"author\"] a"@
}

/// The metadata of a series page: that of its first block of linked data
/// that describes a book, else that of its markup.
pub open spec fn scribblehub_metadata(html: Seq<char>) -> Result<Metadata, ErrorView> {
    match first_book(html, 0) {
        Some(m) => Ok(m),
        None => match queried(html, "div.fic_title"@, ""@) {
            Err(e) => Err(e),
            Ok(title) => match queried(html, "meta[property=\"og:title\"]"@, "content"@) {
                Err(e) => Err(e),
                Ok(meta_title) => match queried(html, author_name_selector(), ""@) {
                    Err(e) => Err(e),
                    Ok(author_name) => match queried(html, author_link_selector(), ""@) {
                        Err(e) => Err(e),
                        Ok(author_link) => match queried(
                            html,
                            "meta[property=\"og:image\"]"@,
                            "content"@,
                        ) {
                            Err(e) => Err(e),
                            Ok(cover) => metadata_of_picks(
                                title,
                                meta_title,
                                author_name,
                                author_link,
                                cover,
                            ),
                        },
                    },
                },
            },
        },
    }
}

fn first_of(a: Option<String>, b: Option<String>) -> (r: Option<String>)
    ensures
        opt_text(r) == either(opt_text(a), opt_text(b)),
{
    match a {
        Some(x) => Some(x),
        None => b,
    }
}

/// The metadata in the markup of a series page, from what the DOM gave for
/// the five queries on it.
pub fn metadata_from_picks(
    title: &Vec<Picked>,
    meta_title: &Vec<Picked>,
    author_name: &Vec<Picked>,
    author_link: &Vec<Picked>,
    cover: &Vec<Picked>,
) -> (r: Result<(String, String, Option<String>, Option<String>), ScraperError>)
    ensures
        metadata_result(r) == metadata_of_picks(
            picked_views(title@),
            picked_views(meta_title@),
            picked_views(author_name@),
            picked_views(author_link@),
            picked_views(cover@),
        ),
{
    let t = first_of(first_text_of(title), first_filled_attr_of(meta_title));
    let a = first_of(first_text_of(author_name), first_text_of(author_link));
    match (t, a) {
        (Some(t), Some(a)) => Ok((t, a, None, first_filled_attr_of(cover))),
        _ => Err(missing_metadata_error()),
    }
}

/// Reads title, author, description and cover URL from a series page.
pub fn parse_metadata(html: &str) -> (r: Result<
    (String, String, Option<String>, Option<String>),
    ScraperError,
>)
    ensures
        metadata_result(r) == scribblehub_metadata(html@),
{
    let chars = chars_of(html);
    if let Some(m) = find_book(chars.as_slice()) {
        return Ok(m);
    }
    let title = query(html, "div.fic_title", "")?;
    let meta_title = query(html, "meta[property=\"og:title\"]", "content")?;
    let author_name = query(
        html,
        "div.sb_content.author div[property=\"author\"] a span.auth_name_fic",
        "",
    )?;
    let author_link = query(html, "div.sb_content.author div[property=\"author\"] a", "")?;
    let cover = query(html, "meta[property=\"og:image\"]", "content")?;
    metadata_from_picks(&title, &meta_title, &author_name, &author_link, &cover)
}

/// Reads title and body from a chapter page.
pub fn parse_chapter_page(html: &str, index: u32, url: &str) -> (r: Result<
    (String, String),
    ScraperError,
>)
    ensures
        page_result(r) == chapter_page(Site::ScribbleHub, html@, index, url@),
{
    crate::scraper::page::parse_chapter_page(Site::ScribbleHub, html, index, url)
}

} // verus!
