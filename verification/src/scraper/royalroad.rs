//! Royal Road: the story page carries its table of contents as a JSON array
//! in a script, and its metadata as linked data.

use crate::model::opt_text;
use crate::scraper::error::{ErrorView, ScraperError};
use crate::scraper::json::{
    json_field, json_items, read_json_field, read_json_items, texts, JsonField, JsonFieldView,
};
use crate::scraper::metadata::{
    block_at, book_from_json, book_in_json, metadata_result, missing_metadata,
    missing_metadata_error, read_block, Metadata,
};
use crate::scraper::page::{
    chapter_page,
    first_attr,
    first_text,
    page_result,
    query,
    queried,
    Picks,
};
use crate::scraper::dom::{picked_views, Picked};
use crate::scraper::toc::{
    entry_views, sort_entries, sorted_by_index, triple_views, TocEntry, TocEntryView,
};
use crate::scraper::weburl::{join_url, parse_url, url_joined, url_parse_error, url_path};
use crate::scraper::Site;
use crate::text::{
    chars_of,
    contains_text,
    copy_range,
    escaped,
    find_from,
    first_occurrence,
    has_text,
    push_escaped,
    string_of,
    strip_leading,
    without_leading,
};
use vstd::prelude::*;

verus! {

pub open spec fn royalroad_base() -> Seq<char> {
    "https://www.royalroad.com"@
}

// ---------------------------------------------------------------------------
// The URL of a story
// ---------------------------------------------------------------------------

pub open spec fn chapter_url_message() -> Seq<char> {
    "Expected a fiction (index) URL, not a chapter URL. Use the story page, e.g. https://www.royalroad.com/fiction/21220/mother-of-learning"@
}

/// A story URL passes unchanged; a URL that does not parse, or that is the
/// URL of a chapter, is refused.
pub open spec fn fiction_url(url: Seq<char>) -> Result<Seq<char>, ErrorView> {
    match url_parse_error(url) {
        Some(reason) => Err(ErrorView::InvalidUrl { input: url, reason }),
        None => if contains_text(url_path(url), "/chapter/"@) {
            Err(ErrorView::ParseStoryPage { message: chapter_url_message() })
        } else {
            Ok(url)
        },
    }
}

pub open spec fn text_or_error(r: Result<String, ScraperError>) -> Result<Seq<char>, ErrorView> {
    match r {
        Ok(s) => Ok(s@),
        Err(e) => Err(e@),
    }
}

/// Whether a URL path is that of a chapter page.
pub fn is_chapter_path(path: &str) -> (r: bool)
    ensures
        r == contains_text(path@, "/chapter/"@),
{
    let p = chars_of(path);
    let needle = chars_of("/chapter/");
    has_text(p.as_slice(), needle.as_slice())
}

/// Checks that `url` is the URL of a story, not of one of its chapters.
pub fn ensure_fiction_url(url: &str) -> (r: Result<String, ScraperError>)
    ensures
        text_or_error(r) == fiction_url(url@),
{
    match parse_url(url) {
        Err(reason) => Err(ScraperError::InvalidUrl { input: url.to_string(), reason }),
        Ok(parts) => {
            if is_chapter_path(parts.path.as_str()) {
                Err(
                    ScraperError::ParseStoryPage {
                        message: "Expected a fiction (index) URL, not a chapter URL. Use the story page, e.g. https://www.royalroad.com/fiction/21220/mother-of-learning".to_string(),
                    },
                )
            } else {
                Ok(url.to_string())
            }
        },
    }
}

// ---------------------------------------------------------------------------
// Cutting the array out of the script
// ---------------------------------------------------------------------------

/// Where a scan of JSON text stands: how many arrays are open, whether it
/// is inside a string, and whether the last character was a backslash
/// that escapes the next.
pub ghost struct ScanState {
    pub depth: int,
    pub in_string: bool,
    pub escaped: bool,
}

pub open spec fn scan_step(st: ScanState, c: char) -> ScanState {
    if st.in_string {
        if st.escaped {
            ScanState { escaped: false, ..st }
        } else if c == '\\' {
            ScanState { escaped: true, ..st }
        } else if c == '"' {
            ScanState { in_string: false, ..st }
        } else {
            st
        }
    } else if c == '[' {
        ScanState { depth: st.depth + 1, ..st }
    } else if c == ']' {
        ScanState { depth: st.depth - 1, ..st }
    } else if c == '"' {
        ScanState { in_string: true, ..st }
    } else {
        st
    }
}

/// The state of the scan after the characters of `s`.
pub open spec fn scan_state(s: Seq<char>) -> ScanState
    decreases s.len(),
{
    if s.len() == 0 {
        ScanState { depth: 0, in_string: false, escaped: false }
    } else {
        scan_step(scan_state(s.drop_last()), s.last())
    }
}

/// `s[i]` is a closing bracket outside any string that closes the
/// outermost array.
pub open spec fn closes_at(s: Seq<char>, i: int) -> bool {
    &&& 0 <= i < s.len()
    &&& s[i] == ']'
    &&& !scan_state(s.take(i)).in_string
    &&& scan_state(s.take(i)).depth == 1
}

/// The first index at or after `from` at which the outermost array closes.
pub open spec fn first_close(s: Seq<char>, from: int) -> Option<int>
    decreases s.len() - from,
{
    if from < 0 || from >= s.len() {
        None
    } else if closes_at(s, from) {
        Some(from)
    } else {
        first_close(s, from + 1)
    }
}

/// The JSON array that starts at the first `[` of `s` and ends at the
/// bracket that closes it; brackets inside strings do not count.
pub open spec fn json_array_in(s: Seq<char>) -> Option<Seq<char>> {
    match first_occurrence(s, seq!['['], 0) {
        None => None,
        Some(start) => match first_close(s.skip(start), 0) {
            Some(end) => Some(s.subrange(start, start + end + 1)),
            None => None,
        },
    }
}

/// What `first_close` finds closes the array, and nothing before it does.
pub proof fn lemma_first_close(s: Seq<char>, from: int)
    requires
        0 <= from,
    ensures
        match first_close(s, from) {
            Some(i) => from <= i && closes_at(s, i) && forall|j: int|
                from <= j < i ==> !closes_at(s, j),
            None => forall|j: int| from <= j ==> !closes_at(s, j),
        },
    decreases s.len() - from,
{
    if from < s.len() && !closes_at(s, from) {
        lemma_first_close(s, from + 1);
    }
}

/// The array that is cut out starts with `[` and ends with the `]` that
/// closes it: before that one the scan stands outside any string with one
/// array open. Every `]` before it stands inside a string or closes an
/// inner array, so a bracket in a quoted title does not cut the array short.
pub proof fn law_array_ends_outside_strings(s: Seq<char>)
    ensures
        json_array_in(s) matches Some(a) ==> {
            &&& a.len() >= 2
            &&& a[0] == '['
            &&& a.last() == ']'
            &&& !scan_state(a.drop_last()).in_string
            &&& scan_state(a.drop_last()).depth == 1
            &&& forall|i: int|
                0 <= i < a.len() - 1 && a[i] == ']' ==> scan_state(a.take(i)).in_string
                    || scan_state(a.take(i)).depth != 1
        },
{
    crate::text::lemma_first_occurrence(s, seq!['['], 0);
    if let Some(start) = first_occurrence(s, seq!['['], 0) {
        let t = s.skip(start);
        lemma_first_close(t, 0);
        if let Some(end) = first_close(t, 0) {
            let a = s.subrange(start, start + end + 1);
            assert(s.subrange(start, start + 1)[0] == seq!['['][0]);
            assert(a =~= t.take(end + 1));
            assert(a.drop_last() =~= t.take(end));
            assert(scan_state(t.take(0)).depth == 0);
            assert forall|i: int| 0 <= i < a.len() - 1 && a[i] == ']' implies scan_state(
                a.take(i),
            ).in_string || scan_state(a.take(i)).depth != 1 by {
                assert(a.take(i) =~= t.take(i));
                assert(!closes_at(t, i));
            }
        }
    }
}

/// The index of the bracket that closes the array opening at `t[0]`.
pub fn array_end(t: &[char]) -> (r: Option<usize>)
    requires
        t.len() > 0,
        t[0] == '[',
    ensures
        match r {
            Some(end) => first_close(t@, 0) == Some(end as int) && end < t.len(),
            None => first_close(t@, 0) is None,
        },
{
    let mut depth: usize = 0;
    let mut in_string = false;
    let mut escape = false;
    let mut i: usize = 0;
    while i < t.len()
        invariant
            i <= t.len(),
            t.len() > 0,
            t[0] == '[',
            first_close(t@, 0) == first_close(t@, i as int),
            scan_state(t@.take(i as int)) == (ScanState {
                depth: depth as int,
                in_string,
                escaped: escape,
            }),
            depth <= i,
            i >= 1 ==> depth >= 1,
            i == 0 ==> !in_string,
        decreases t.len() - i,
    {
        assert(t@.take(i + 1).drop_last() =~= t@.take(i as int));
        let c = t[i];
        if in_string {
            if escape {
                escape = false;
            } else if c == '\\' {
                escape = true;
            } else if c == '"' {
                in_string = false;
            }
        } else if c == '[' {
            depth += 1;
        } else if c == ']' {
            if depth == 1 {
                return Some(i);
            }
            depth -= 1;
        } else if c == '"' {
            in_string = true;
        }
        i += 1;
    }
    None
}

pub fn json_array_range(s: &[char]) -> (r: Option<(usize, usize)>)
    ensures
        match r {
            Some(b) => b.0 <= b.1 <= s.len() && json_array_in(s@) == Some(
                s@.subrange(b.0 as int, b.1 as int),
            ),
            None => json_array_in(s@) is None,
        },
{
    let mut bracket: Vec<char> = Vec::new();
    bracket.push('[');
    assert(bracket@ =~= seq!['[']);
    match find_from(s, bracket.as_slice(), 0) {
        None => None,
        Some(start) => {
            let tail = copy_range(s, start, s.len());
            assert(tail@ =~= s@.skip(start as int));
            assert(s@.subrange(start as int, start + 1)[0] == seq!['['][0]);
            match array_end(tail.as_slice()) {
                Some(end) => Some((start, start + end + 1)),
                None => None,
            }
        },
    }
}

/// Cuts the JSON array that starts at the first `[` out of `s`. The array
/// ends at the bracket that closes it, counted outside quoted strings and
/// with backslash escapes respected, so a `]` inside a title does not end it.
pub fn extract_json_array_with_strings(s: &str) -> (r: Option<String>)
    ensures
        opt_text(r) == json_array_in(s@),
{
    let chars = chars_of(s);
    match json_array_range(chars.as_slice()) {
        Some((a, b)) => {
            let cut = copy_range(chars.as_slice(), a, b);
            Some(string_of(cut.as_slice()))
        },
        None => None,
    }
}

// ---------------------------------------------------------------------------
// The table of contents
// ---------------------------------------------------------------------------

pub open spec fn list_failure(reason: Seq<char>) -> ErrorView {
    ErrorView::ChapterListParse { reason }
}

/// The text of the array that the page assigns to `window.chapters`.
pub open spec fn chapters_array(html: Seq<char>) -> Result<Seq<char>, ErrorView> {
    match first_occurrence(html, "window.chapters = "@, 0) {
        None => Err(list_failure("window.chapters not found"@)),
        Some(at) => match first_occurrence(html, seq!['['], at + "window.chapters = "@.len()) {
            None => Err(list_failure("window.chapters array start not found"@)),
            Some(open) => match json_array_in(html.skip(open)) {
                None => Err(list_failure("could not extract window.chapters array"@)),
                Some(array) => Ok(array),
            },
        },
    }
}

/// The 0-based order that the field `order` gives: 0 where the item has
/// no such field.
pub open spec fn field_order(order: JsonFieldView) -> Result<u32, Seq<char>> {
    match order {
        JsonFieldView::Absent => Ok(0u32),
        JsonFieldView::Number(Some(n)) => if n < u32::MAX {
            Ok(n as u32)
        } else {
            Err("chapter entry with an `order` out of range"@)
        },
        _ => Err("chapter entry with an invalid `order`"@),
    }
}

/// Whether the chapter is unlocked by the field `isUnlocked`: it is where
/// the item has no such field.
pub open spec fn field_unlocked(unlocked: JsonFieldView) -> Result<bool, Seq<char>> {
    match unlocked {
        JsonFieldView::Absent => Ok(true),
        JsonFieldView::Flag(b) => Ok(b),
        _ => Err("chapter entry with an invalid `isUnlocked`"@),
    }
}

/// Index, URL as the item gives it, title and unlock flag of the entry
/// that the fields of one item stand for. The item needs a numeric `id`,
/// a `title` and a `url`; the index is the order plus one.
pub open spec fn fields_entry(
    id: JsonFieldView,
    title: JsonFieldView,
    url: JsonFieldView,
    order: JsonFieldView,
    unlocked: JsonFieldView,
) -> Result<(u32, Seq<char>, Seq<char>, bool), Seq<char>> {
    if !(id matches JsonFieldView::Number(Some(_))) {
        Err("chapter entry without a valid `id`"@)
    } else {
        match title {
            JsonFieldView::Text(t) => match url {
                JsonFieldView::Text(u) => match field_order(order) {
                    Err(e) => Err(e),
                    Ok(o) => match field_unlocked(unlocked) {
                        Err(e) => Err(e),
                        Ok(free) => Ok(((o + 1) as u32, u, t, free)),
                    },
                },
                _ => Err("chapter entry without a valid `url`"@),
            },
            _ => Err("chapter entry without a valid `title`"@),
        }
    }
}

/// The entry that one item of the array stands for: what its fields
/// give, the URL resolved against the site.
pub open spec fn item_entry(item: Seq<char>) -> Result<TocEntryView, Seq<char>> {
    match fields_entry(
        json_field(item, "/id"@),
        json_field(item, "/title"@),
        json_field(item, "/url"@),
        json_field(item, "/order"@),
        json_field(item, "/isUnlocked"@),
    ) {
        Err(e) => Err(e),
        Ok(f) => match url_joined(royalroad_base(), without_leading(f.1, '/')) {
            Err(e) => Err(e),
            Ok(full) => Ok(TocEntryView { index: f.0, url: full, title: f.2, unlocked: f.3 }),
        },
    }
}

/// The entries that the items stand for, or the failure of the first item
/// that stands for none.
pub open spec fn item_entries(items: Seq<Seq<char>>) -> Result<Seq<TocEntryView>, Seq<char>>
    decreases items.len(),
{
    if items.len() == 0 {
        Ok(Seq::<TocEntryView>::empty())
    } else {
        match item_entries(items.drop_last()) {
            Err(e) => Err(e),
            Ok(entries) => match item_entry(items.last()) {
                Err(e) => Err(e),
                Ok(entry) => Ok(entries.push(entry)),
            },
        }
    }
}

/// The table of contents on a story page, sorted by index.
pub open spec fn royalroad_toc(html: Seq<char>) -> Result<Seq<TocEntryView>, ErrorView> {
    match chapters_array(html) {
        Err(e) => Err(e),
        Ok(array) => match json_items(array) {
            Err(reason) => Err(list_failure(reason)),
            Ok(items) => match item_entries(items) {
                Err(reason) => Err(list_failure(reason)),
                Ok(entries) => Ok(sorted_by_index(entries)),
            },
        },
    }
}

pub open spec fn entries_result(r: Result<Vec<TocEntry>, ScraperError>) -> Result<
    Seq<TocEntryView>,
    ErrorView,
> {
    match r {
        Ok(v) => Ok(entry_views(v@)),
        Err(e) => Err(e@),
    }
}

pub open spec fn entry_result(r: Result<TocEntry, String>) -> Result<TocEntryView, Seq<char>> {
    match r {
        Ok(e) => Ok(e@),
        Err(e) => Err(e@),
    }
}

/// A failure among the first items is the failure of the whole list.
proof fn lemma_item_failure(items: Seq<Seq<char>>, k: int)
    requires
        0 <= k <= items.len(),
        item_entries(items.take(k)) is Err,
    ensures
        item_entries(items) == item_entries(items.take(k)),
    decreases items.len() - k,
{
    if k == items.len() {
        assert(items.take(k) =~= items);
    } else {
        assert(items.take(k + 1).drop_last() =~= items.take(k));
        lemma_item_failure(items, k + 1);
    }
}

fn list_error(reason: &str) -> (e: ScraperError)
    ensures
        e@ == list_failure(reason@),
{
    ScraperError::ChapterListParse { reason: reason.to_string() }
}

/// Cuts the array assigned to `window.chapters` out of the page.
pub fn find_chapters_array(html: &str) -> (r: Result<String, ScraperError>)
    ensures
        text_or_error(r) == chapters_array(html@),
{
    let chars = chars_of(html);
    let needle = chars_of("window.chapters = ");
    let mut bracket: Vec<char> = Vec::new();
    bracket.push('[');
    assert(bracket@ =~= seq!['[']);
    match find_from(chars.as_slice(), needle.as_slice(), 0) {
        None => Err(list_error("window.chapters not found")),
        Some(at) => match find_from(chars.as_slice(), bracket.as_slice(), at + needle.len()) {
            None => Err(list_error("window.chapters array start not found")),
            Some(open) => {
                let tail = copy_range(chars.as_slice(), open, chars.len());
                assert(tail@ =~= html@.skip(open as int));
                match json_array_range(tail.as_slice()) {
                    None => Err(list_error("could not extract window.chapters array")),
                    Some((a, b)) => {
                        let cut = copy_range(tail.as_slice(), a, b);
                        Ok(string_of(cut.as_slice()))
                    },
                }
            },
        },
    }
}

pub open spec fn fields_result(r: Result<(u32, String, String, bool), String>) -> Result<
    (u32, Seq<char>, Seq<char>, bool),
    Seq<char>,
> {
    match r {
        Ok(f) => Ok((f.0, f.1@, f.2@, f.3)),
        Err(e) => Err(e@),
    }
}

/// Index, URL, title and unlock flag of the entry that the fields of one
/// item stand for.
pub fn entry_from_fields(
    id: &JsonField,
    title: JsonField,
    url: JsonField,
    order: &JsonField,
    unlocked: &JsonField,
) -> (r: Result<(u32, String, String, bool), String>)
    ensures
        fields_result(r) == fields_entry(id@, title@, url@, order@, unlocked@),
{
    match id {
        JsonField::Number(Some(_)) => {},
        _ => {
            return Err("chapter entry without a valid `id`".to_string());
        },
    }
    let title = match title {
        JsonField::Text(t) => t,
        _ => {
            return Err("chapter entry without a valid `title`".to_string());
        },
    };
    let url = match url {
        JsonField::Text(u) => u,
        _ => {
            return Err("chapter entry without a valid `url`".to_string());
        },
    };
    let index: u32 = match order {
        JsonField::Absent => 1,
        JsonField::Number(Some(n)) => {
            if *n < 0xFFFF_FFFF {
                *n as u32 + 1
            } else {
                return Err("chapter entry with an `order` out of range".to_string());
            }
        },
        _ => {
            return Err("chapter entry with an invalid `order`".to_string());
        },
    };
    let free = match unlocked {
        JsonField::Absent => true,
        JsonField::Flag(b) => *b,
        _ => {
            return Err("chapter entry with an invalid `isUnlocked`".to_string());
        },
    };
    Ok((index, url, title, free))
}

/// The entry that one item of the array stands for.
pub fn entry_from_item(item: &str) -> (r: Result<TocEntry, String>)
    ensures
        entry_result(r) == item_entry(item@),
{
    let id = read_json_field(item, "/id");
    let title = read_json_field(item, "/title");
    let url = read_json_field(item, "/url");
    let order = read_json_field(item, "/order");
    let unlocked = read_json_field(item, "/isUnlocked");
    let (index, url, title, unlocked) = entry_from_fields(&id, title, url, &order, &unlocked)?;
    let chars = chars_of(url.as_str());
    let relative = strip_leading(chars.as_slice(), '/');
    let reference = string_of(relative.as_slice());
    match join_url("https://www.royalroad.com", reference.as_str()) {
        Err(e) => Err(e),
        Ok(full) => Ok(TocEntry { index, url: full, title, unlocked }),
    }
}

/// Reads the table of contents from a story page: every chapter listed,
/// locked ones included, sorted by index.
pub fn parse_toc_with_locked(html: &str) -> (r: Result<Vec<TocEntry>, ScraperError>)
    ensures
        entries_result(r) == royalroad_toc(html@),
{
    let array = find_chapters_array(html)?;
    let items = match read_json_items(array.as_str()) {
        Ok(items) => items,
        Err(reason) => {
            return Err(ScraperError::ChapterListParse { reason });
        },
    };
    let ghost all = texts(items@);
    let mut entries: Vec<TocEntry> = Vec::new();
    let mut i: usize = 0;
    assert(all.take(0) =~= Seq::<Seq<char>>::empty());
    assert(entry_views(entries@) =~= Seq::<TocEntryView>::empty());
    while i < items.len()
        invariant
            i <= items.len(),
            all == texts(items@),
            royalroad_toc(html@) == match item_entries(all) {
                Err(reason) => Err::<Seq<TocEntryView>, ErrorView>(list_failure(reason)),
                Ok(entries) => Ok(sorted_by_index(entries)),
            },
            item_entries(all.take(i as int)) == Ok::<Seq<TocEntryView>, Seq<char>>(
                entry_views(entries@),
            ),
        decreases items.len() - i,
    {
        let ghost before = entry_views(entries@);
        assert(all.take(i + 1).drop_last() =~= all.take(i as int));
        assert(all.take(i + 1).last() == items@[i as int]@);
        match entry_from_item(items[i].as_str()) {
            Err(reason) => {
                proof {
                    lemma_item_failure(all, i + 1);
                }
                return Err(ScraperError::ChapterListParse { reason });
            },
            Ok(entry) => {
                entries.push(entry);
                assert(entry_views(entries@) =~= before.push(entry@));
            },
        }
        i += 1;
    }
    assert(all.take(items.len() as int) =~= all);
    Ok(sort_entries(entries))
}

/// The unlocked entries of `s` as (index, URL, title), in the order of `s`.
pub open spec fn unlocked_triples(s: Seq<TocEntryView>) -> Seq<(u32, Seq<char>, Seq<char>)>
    decreases s.len(),
{
    if s.len() == 0 {
        Seq::<(u32, Seq<char>, Seq<char>)>::empty()
    } else if s.last().unlocked {
        unlocked_triples(s.drop_last()).push((s.last().index, s.last().url, s.last().title))
    } else {
        unlocked_triples(s.drop_last())
    }
}

/// The chapters of a story page that can be read without paying.
pub open spec fn royalroad_free_toc(html: Seq<char>) -> Result<
    Seq<(u32, Seq<char>, Seq<char>)>,
    ErrorView,
> {
    match royalroad_toc(html) {
        Err(e) => Err(e),
        Ok(entries) => if unlocked_triples(entries).len() == 0 {
            Err(ErrorView::EmptyChapterList)
        } else {
            Ok(unlocked_triples(entries))
        },
    }
}

pub open spec fn triples_result(r: Result<Vec<(u32, String, String)>, ScraperError>) -> Result<
    Seq<(u32, Seq<char>, Seq<char>)>,
    ErrorView,
> {
    match r {
        Ok(v) => Ok(triple_views(v@)),
        Err(e) => Err(e@),
    }
}

/// Reads the table of contents from a story page, locked chapters left
/// out; a page that lists no free chapter has no table of contents.
pub fn parse_toc(html: &str) -> (r: Result<Vec<(u32, String, String)>, ScraperError>)
    ensures
        triples_result(r) == royalroad_free_toc(html@),
{
    let toc = parse_toc_with_locked(html)?;
    let ghost all = entry_views(toc@);
    let mut out: Vec<(u32, String, String)> = Vec::new();
    let mut i: usize = 0;
    assert(triple_views(out@) =~= unlocked_triples(all.take(0)));
    while i < toc.len()
        invariant
            i <= toc.len(),
            all == entry_views(toc@),
            triple_views(out@) == unlocked_triples(all.take(i as int)),
        decreases toc.len() - i,
    {
        let ghost before = triple_views(out@);
        assert(all.take(i + 1).drop_last() =~= all.take(i as int));
        if toc[i].unlocked {
            out.push((toc[i].index, toc[i].url.clone(), toc[i].title.clone()));
            assert(triple_views(out@) =~= before.push(
                (all[i as int].index, all[i as int].url, all[i as int].title),
            ));
        }
        i += 1;
    }
    assert(all.take(toc.len() as int) =~= all);
    if out.len() == 0 {
        return Err(ScraperError::EmptyChapterList);
    }
    Ok(out)
}

// ---------------------------------------------------------------------------
// Metadata
// ---------------------------------------------------------------------------

/// The metadata in the markup of a story page: title and author are
/// needed, description and cover are taken where they are there.
pub open spec fn metadata_of_picks(title: Picks, author: Picks, description: Picks, cover: Picks)
    -> Result<Metadata, ErrorView> {
    match (first_text(title), first_text(author)) {
        (Some(t), Some(a)) => Ok(
            (t, a, first_text(description), crate::scraper::page::filled(first_attr(cover))),
        ),
        _ => Err(missing_metadata()),
    }
}

/// The metadata of a story page: that of its first block of linked data
/// where the block describes a book, else that of its markup.
pub open spec fn royalroad_metadata(html: Seq<char>) -> Result<Metadata, ErrorView> {
    let linked = match block_at(html, 0) {
        Some(b) => book_in_json(b.0),
        None => None,
    };
    match linked {
        Some(m) => Ok(m),
        None => match queried(html, "h1.font-white"@, ""@) {
            Err(e) => Err(e),
            Ok(title) => match queried(html, "h4 a.font-white"@, ""@) {
                Err(e) => Err(e),
                Ok(author) => match queried(html, ".description"@, ""@) {
                    Err(e) => Err(e),
                    Ok(description) => match queried(
                        html,
                        "meta[property=\"og:image\"]"@,
                        "content"@,
                    ) {
                        Err(e) => Err(e),
                        Ok(cover) => metadata_of_picks(title, author, description, cover),
                    },
                },
            },
        },
    }
}

/// The metadata in the markup of a story page, from what the DOM gave for
/// the four queries on it.
pub fn metadata_from_picks(
    title: &Vec<Picked>,
    author: &Vec<Picked>,
    description: &Vec<Picked>,
    cover: &Vec<Picked>,
) -> (r: Result<(String, String, Option<String>, Option<String>), ScraperError>)
    ensures
        metadata_result(r) == metadata_of_picks(
            picked_views(title@),
            picked_views(author@),
            picked_views(description@),
            picked_views(cover@),
        ),
{
    match (crate::scraper::page::first_text_of(title), crate::scraper::page::first_text_of(author)) {
        (Some(t), Some(a)) => Ok(
            (
                t,
                a,
                crate::scraper::page::first_text_of(description),
                crate::scraper::page::first_filled_attr_of(cover),
            ),
        ),
        _ => Err(missing_metadata_error()),
    }
}

/// Reads title, author, description and cover URL from a story page.
pub fn parse_metadata(html: &str) -> (r: Result<
    (String, String, Option<String>, Option<String>),
    ScraperError,
>)
    ensures
        metadata_result(r) == royalroad_metadata(html@),
{
    let chars = chars_of(html);
    if let Some((doc, _)) = read_block(chars.as_slice(), 0) {
        let text = string_of(doc.as_slice());
        if let Some(m) = book_from_json(text.as_str()) {
            return Ok(m);
        }
    }
    let title = query(html, "h1.font-white", "")?;
    let author = query(html, "h4 a.font-white", "")?;
    let description = query(html, ".description", "")?;
    let cover = query(html, "meta[property=\"og:image\"]", "content")?;
    metadata_from_picks(&title, &author, &description, &cover)
}

// ---------------------------------------------------------------------------
// Chapter pages
// ---------------------------------------------------------------------------

/// Reads title and body from a chapter page.
pub fn parse_chapter_page(html: &str, index: u32, url: &str) -> (r: Result<
    (String, String),
    ScraperError,
>)
    ensures
        page_result(r) == chapter_page(Site::RoyalRoad, html@, index, url@),
{
    crate::scraper::page::parse_chapter_page(Site::RoyalRoad, html, index, url)
}

/// Escapes `&`, `<`, `>` and `"` for use inside markup.
pub fn html_escape_inner(s: &str) -> (out: String)
    ensures
        out@ == escaped(s@),
{
    let chars = chars_of(s);
    let mut out: Vec<char> = Vec::new();
    push_escaped(&mut out, chars.as_slice());
    string_of(out.as_slice())
}

} // verus!
