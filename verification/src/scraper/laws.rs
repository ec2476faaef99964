//! What holds of every crawl: a crawl as a whole is stated here as a fold
//! over the table of contents, and the laws of resuming, of failures, of
//! policies, ranges and merged lists are proved of it.

use crate::model::{ascending, has_index, inserted, lemma_inserted, ChapterView};
use crate::scraper::crawl::{
    aborted, crawl_wf, listed_only, on_chapter, on_chapter_page, planned, stepped, ActionView,
    CrawlView, Stage,
};
use crate::scraper::entry::{
    entry_plan, page_outcome, reply_outcome, FetchedView, Outcome, Plan,
};
use crate::scraper::error::ErrorView;
use crate::scraper::page::{chapter_of_picks, Picks};
use crate::scraper::scribblehub::{merged, Triples};
use crate::scraper::toc::{
    entries_of_triples, first_by_url, in_order, in_range, lemma_first_by_url, lemma_sorted,
    listed, locked_count, sorted_by_index, url_listed, within_range, TocEntryView,
};
use crate::scraper::{EmptyChapterBehavior, LockedChapterBehavior, Site};
use vstd::prelude::*;

verus! {

/// The answers of the network, by URL.
pub type Net = spec_fn(Seq<char>) -> FetchedView;

/// What a crawl is set to do with its entries.
pub ghost struct Policy {
    pub site: Site,
    pub locked: LockedChapterBehavior,
    pub empty: EmptyChapterBehavior,
    /// The number of locked chapters in the whole table of contents.
    pub locked_total: usize,
}

pub open spec fn policy_of(c: CrawlView) -> Policy {
    Policy { site: c.site, locked: c.locked, empty: c.empty, locked_total: c.locked_total }
}

/// The chapters of the book once the entry `e` is dealt with, or the
/// error that ends the crawl at this entry.
pub open spec fn entry_effect(chapters: Seq<ChapterView>, e: TocEntryView, net: Net, p: Policy)
    -> Result<Seq<ChapterView>, ErrorView> {
    match entry_plan(chapters, e, p.locked) {
        Plan::Present => Ok(chapters),
        Plan::LockedOmit => Ok(chapters),
        Plan::LockedAppend(ch) => Ok(inserted(chapters, ch)),
        Plan::LockedAbort => Err(ErrorView::LockedChaptersNotAllowed { count: p.locked_total }),
        Plan::Fetch => match reply_outcome(p.site, p.empty, e, net(e.url)) {
            Outcome::Append(ch) => Ok(inserted(chapters, ch)),
            Outcome::Omit => Ok(chapters),
            Outcome::Abort(err) => Err(err),
        },
    }
}

/// The chapters of the book once the entries of `toc` are dealt with in
/// order, or the error of the first entry that ends the crawl.
pub open spec fn crawl_entries(chapters: Seq<ChapterView>, toc: Seq<TocEntryView>, net: Net, p: Policy)
    -> Result<Seq<ChapterView>, ErrorView>
    decreases toc.len(),
{
    if toc.len() == 0 {
        Ok(chapters)
    } else {
        match entry_effect(chapters, toc[0], net, p) {
            Ok(next) => crawl_entries(next, toc.drop_first(), net, p),
            Err(e) => Err(e),
        }
    }
}

/// The steps of a crawl deal with each entry as `entry_effect` says: the
/// step that decides on an entry, and the step that is given the answer
/// where the first one asked for the chapter page, leave the book with the
/// chapters of `entry_effect` and move on to the next entry, or fail with
/// its error. The page asked for is that of the entry.
pub proof fn law_steps_follow_entries(c: CrawlView, net: Net)
    requires
        c.stage == Stage::Chapter,
        c.cursor < c.toc.len(),
    ensures
        ({
            let e = c.toc[c.cursor as int];
            let first = on_chapter(c);
            let last = if first.1 is Get {
                on_chapter_page(first.0, net(e.url))
            } else {
                first
            };
            &&& first.1 is Get ==> first.1 == (ActionView::Get { url: e.url }) && first.0.stage
                == Stage::ChapterPage
            &&& match entry_effect(c.book.chapters, e, net, policy_of(c)) {
                Ok(chapters) => last.0.book.chapters == chapters && last.0.stage == Stage::Chapter
                    && last.0.cursor == c.cursor + 1 && last.0.toc == c.toc && !(last.1 is Failed),
                Err(err) => last.1 == ActionView::Failed(err) && last.0.stage == Stage::Done,
            }
        }),
{
}

/// The state once the crawl has dealt with its current entry, and what
/// the last step said: the step that decides on the entry and, where that
/// one asks for the chapter page, the step that is given the answer.
pub open spec fn after_entry(c: CrawlView, net: Net) -> (CrawlView, ActionView) {
    let first = stepped(c, None);
    match first.1 {
        ActionView::Get { url } => stepped(first.0, Some(net(url))),
        _ => first,
    }
}

/// The state once the crawl has dealt with its next `n` entries, and the
/// error where it failed on the way.
pub open spec fn after_entries(c: CrawlView, net: Net, n: nat) -> (CrawlView, Option<ErrorView>)
    decreases n,
{
    if n == 0 {
        (c, None)
    } else {
        match after_entry(c, net).1 {
            ActionView::Failed(e) => (after_entry(c, net).0, Some(e)),
            _ => after_entries(after_entry(c, net).0, net, (n - 1) as nat),
        }
    }
}

/// The steps of a crawl, taken over all entries that are left, leave the
/// book with the chapters that `crawl_entries` states, or fail with its
/// error.
pub proof fn law_crawl_follows_entries(c: CrawlView, net: Net)
    requires
        c.stage == Stage::Chapter,
        c.cursor <= c.toc.len(),
    ensures
        ({
            let end = after_entries(c, net, (c.toc.len() - c.cursor) as nat);
            match crawl_entries(c.book.chapters, c.toc.skip(c.cursor as int), net, policy_of(c)) {
                Ok(chapters) => end.1 is None && end.0.book.chapters == chapters && end.0.cursor
                    == c.toc.len() && end.0.stage == Stage::Chapter && end.0.toc == c.toc,
                Err(e) => end.1 == Some(e),
            }
        }),
    decreases c.toc.len() - c.cursor,
{
    let rest = c.toc.skip(c.cursor as int);
    if c.cursor < c.toc.len() {
        let e = c.toc[c.cursor as int];
        assert(rest[0] == e);
        assert(rest.drop_first() =~= c.toc.skip(c.cursor + 1 as int));
        law_steps_follow_entries(c, net);
        let next = after_entry(c, net);
        match entry_effect(c.book.chapters, e, net, policy_of(c)) {
            Ok(_) => {
                assert(policy_of(next.0) == policy_of(c));
                law_crawl_follows_entries(next.0, net);
            },
            Err(_) => {},
        }
    }
}

/// Listing chapters keeps the book in order.
pub proof fn lemma_listed_only(
    chapters: Seq<ChapterView>,
    toc: Seq<TocEntryView>,
    locked: LockedChapterBehavior,
)
    requires
        ascending(chapters),
    ensures
        ascending(listed_only(chapters, toc, locked)),
    decreases toc.len(),
{
    if toc.len() > 0 {
        let next = if has_index(chapters, toc[0].index) {
            chapters
        } else {
            match crate::scraper::crawl::listed_chapter(toc[0], locked) {
                Some(ch) => inserted(chapters, ch),
                None => chapters,
            }
        };
        if !has_index(chapters, toc[0].index) {
            if let Some(ch) = crate::scraper::crawl::listed_chapter(toc[0], locked) {
                lemma_inserted(chapters, ch);
            }
        }
        lemma_listed_only(next, toc.drop_first(), locked);
    }
}

/// A crawl starts in a state that crawls can be in, whatever book it is
/// given to resume.
pub proof fn law_start_is_in_order(
    site: Site,
    url: Seq<char>,
    range: Option<(u32, u32)>,
    resume: Option<crate::model::BookView>,
    locked: Option<LockedChapterBehavior>,
    empty: Option<EmptyChapterBehavior>,
    toc_only: bool,
)
    ensures
        crate::scraper::crawl::started(site, url, range, resume, locked, empty, toc_only) matches Ok(
            c,
        ) ==> crawl_wf(c),
{
    if let Some(b) = resume {
        crate::model::law_normalized(b.chapters);
    }
}

/// Once the table of contents is known, the state is one that crawls
/// can be in.
proof fn lemma_planned(c: CrawlView, html: Seq<char>, toc: Seq<TocEntryView>)
    requires
        crawl_wf(c),
        c.stage != Stage::ChapterPage,
    ensures
        crawl_wf(planned(c, html, toc).0),
{
    match crate::scraper::crawl::base_book(c, html) {
        Ok(book) => {
            lemma_listed_only(book.chapters, within_range(toc, c.range), c.locked);
            lemma_within_range(toc, c.range);
        },
        Err(_) => {},
    }
}

/// A page of the chapter list leaves the state one that crawls can be in.
proof fn lemma_after_page(c: CrawlView, html: Seq<char>, current: Seq<char>)
    requires
        crawl_wf(c),
        c.stage != Stage::ChapterPage,
    ensures
        crawl_wf(crate::scraper::crawl::after_page(c, html, current).0),
{
    lemma_planned(c, c.index_html, entries_of_triples(merged(c.gathered)));
}

/// The first page of the chapter list leaves the state one that crawls
/// can be in.
proof fn lemma_start_pages(c: CrawlView)
    requires
        crawl_wf(c),
        c.stage != Stage::ChapterPage,
    ensures
        crawl_wf(crate::scraper::crawl::start_pages(c).0),
{
    match crate::scraper::scribblehub::toc_page(
        c.index_html,
        crate::scraper::scribblehub::scribblehub_base(),
    ) {
        Ok(entries) => {
            lemma_after_page(CrawlView { gathered: entries, ..c }, c.index_html, c.url);
        },
        Err(_) => {},
    }
}

/// Whatever a step is given, it leaves the book with its chapters in
/// strictly ascending order of index, and the state one that crawls can
/// be in.
pub proof fn law_steps_keep_the_book_in_order(c: CrawlView, reply: Option<FetchedView>)
    requires
        crawl_wf(c),
    ensures
        crawl_wf(stepped(c, reply).0),
        ascending(stepped(c, reply).0.book.chapters),
{
    let answer = crate::scraper::crawl::answer(reply);
    let base = crate::scraper::scribblehub::scribblehub_base();
    match c.stage {
        Stage::Start => {},
        Stage::Index => {
            if let Ok(html) = crate::scraper::entry::checked(answer, c.url, "story page"@) {
                match c.site {
                    Site::RoyalRoad => {
                        if let Ok(toc) = crate::scraper::royalroad::royalroad_toc(html) {
                            lemma_planned(c, html, toc);
                        }
                    },
                    Site::ScribbleHub => {
                        lemma_start_pages(CrawlView { index_html: html, ..c });
                    },
                }
            }
        },
        Stage::FullList => {
            if let Ok(html) = crate::scraper::entry::checked(
                answer,
                crate::scraper::crawl::list_url(),
                "TOC AJAX"@,
            ) {
                if let Ok(entries) = crate::scraper::scribblehub::toc_page(html, base) {
                    lemma_planned(c, c.index_html, entries_of_triples(merged(entries)));
                    lemma_start_pages(c);
                }
            }
        },
        Stage::ListPage => {
            if let Ok(html) = crate::scraper::entry::checked(answer, c.page_url, "TOC page"@) {
                if let Ok(entries) = crate::scraper::scribblehub::toc_page(html, base) {
                    lemma_after_page(
                        CrawlView { gathered: c.gathered + entries, ..c },
                        html,
                        c.page_url,
                    );
                }
            }
        },
        Stage::Chapter => {
            if c.cursor < c.toc.len() {
                if let Plan::LockedAppend(ch) = entry_plan(
                    c.book.chapters,
                    c.toc[c.cursor as int],
                    c.locked,
                ) {
                    lemma_inserted(c.book.chapters, ch);
                }
            }
        },
        Stage::ChapterPage => {
            crate::scraper::crawl::lemma_outcome_index(
                c.site,
                c.empty,
                c.toc[c.cursor as int],
                answer,
            );
            if let Outcome::Append(ch) = reply_outcome(
                c.site,
                c.empty,
                c.toc[c.cursor as int],
                answer,
            ) {
                lemma_inserted(c.book.chapters, ch);
            }
        },
        Stage::Done => {},
    }
}

/// A chapter that the book holds is never asked for again.
pub proof fn law_present_is_not_fetched(c: CrawlView)
    requires
        c.stage == Stage::Chapter,
        c.cursor < c.toc.len(),
        has_index(c.book.chapters, c.toc[c.cursor as int].index),
    ensures
        !(on_chapter(c).1 is Get),
        on_chapter(c).0.book == c.book,
{
}

// ---------------------------------------------------------------------------
// Locked chapters
// ---------------------------------------------------------------------------

/// Under the policy to fail, a table of contents with a locked chapter
/// ends the crawl as soon as it is known, before any chapter is asked
/// for; under the other policies no crawl ends over locked chapters there.
pub proof fn law_locked_chapters_fail_fast(c: CrawlView, html: Seq<char>, toc: Seq<TocEntryView>)
    requires
        toc.len() > 0,
    ensures
        locked_count(toc) > 0 && c.locked == LockedChapterBehavior::Fail ==> planned(c, html, toc)
            == aborted(
            c,
            ErrorView::LockedChaptersNotAllowed { count: locked_count(toc) as usize },
        ),
        c.locked != LockedChapterBehavior::Fail ==> !(planned(c, html, toc).1 matches ActionView::Failed(
            ErrorView::LockedChaptersNotAllowed { .. },
        )),
        !(planned(c, html, toc).1 is Get),
{
}

// ---------------------------------------------------------------------------
// Empty chapters
// ---------------------------------------------------------------------------

/// A page without content container and a page whose container holds no
/// paragraph are dealt with alike, whatever the policy for empty chapters.
pub proof fn law_empty_policy_is_uniform(
    site: Site,
    empty: EmptyChapterBehavior,
    heading: Picks,
    meta: Picks,
    title: Picks,
    container: Picks,
    paragraphs: Picks,
    index: u32,
    url: Seq<char>,
)
    requires
        container.len() > 0,
    ensures
        page_outcome(
            empty,
            index,
            url,
            chapter_of_picks(
                site,
                heading,
                meta,
                title,
                Seq::<(Seq<char>, Option<Seq<char>>, Option<Seq<char>>)>::empty(),
                paragraphs,
                index,
                url,
            ),
        ) == page_outcome(
            empty,
            index,
            url,
            chapter_of_picks(
                site,
                heading,
                meta,
                title,
                container,
                Seq::<(Seq<char>, Option<Seq<char>>, Option<Seq<char>>)>::empty(),
                index,
                url,
            ),
        ),
{
}

// ---------------------------------------------------------------------------
// Ranges
// ---------------------------------------------------------------------------

/// Cutting a list to a range keeps exactly the entries in the range, and
/// keeps their order.
pub proof fn lemma_within_range(s: Seq<TocEntryView>, range: Option<(u32, u32)>)
    ensures
        within_range(s, range).len() <= s.len(),
        forall|x: TocEntryView|
            listed(within_range(s, range), x) <==> (listed(s, x) && in_range(x.index, range)),
        in_order(s) ==> in_order(within_range(s, range)),
    decreases s.len(),
{
    if s.len() > 0 {
        let front = s.drop_last();
        let last = s.last();
        lemma_within_range(front, range);
        let kept = within_range(front, range);
        let out = within_range(s, range);
        assert forall|x: TocEntryView|
            listed(out, x) <==> (listed(s, x) && in_range(x.index, range)) by {
            if listed(out, x) {
                let i = choose|i: int| 0 <= i < out.len() && out[i] == x;
                if i < kept.len() {
                    assert(kept[i] == x);
                    assert(listed(kept, x));
                    assert(listed(front, x));
                    let k = choose|k: int| 0 <= k < front.len() && front[k] == x;
                    assert(s[k] == x);
                } else {
                    assert(s[s.len() - 1] == x);
                }
            }
            if listed(s, x) && in_range(x.index, range) {
                let k = choose|k: int| 0 <= k < s.len() && s[k] == x;
                if k < front.len() {
                    assert(front[k] == x);
                    assert(listed(front, x));
                    assert(listed(kept, x));
                    let i = choose|i: int| 0 <= i < kept.len() && kept[i] == x;
                    assert(out[i] == x);
                } else {
                    assert(out[out.len() - 1] == x);
                }
            }
        }
        if in_order(s) {
            assert(in_order(front));
            assert forall|i: int, j: int| 0 <= i < j < out.len() implies out[i].index
                <= out[j].index by {
                if j == kept.len() {
                    assert(out[i] == kept[i]);
                    assert(listed(kept, kept[i]));
                    assert(listed(front, kept[i]));
                    let k = choose|k: int| 0 <= k < front.len() && front[k] == kept[i];
                    assert(s[k].index <= s[s.len() - 1].index);
                }
            }
        }
    }
}

/// A range cut from a table of contents holds exactly the chapters of the
/// range, in ascending order, in whatever order the source listed them.
pub proof fn law_range_filter(source: Seq<TocEntryView>, from: u32, to: u32)
    ensures
        in_order(within_range(sorted_by_index(source), Some((from, to)))),
        forall|x: TocEntryView|
            listed(within_range(sorted_by_index(source), Some((from, to))), x) <==> (listed(
                source,
                x,
            ) && from <= x.index <= to),
{
    lemma_sorted(source);
    lemma_within_range(sorted_by_index(source), Some((from, to)));
}

// ---------------------------------------------------------------------------
// Merged lists
// ---------------------------------------------------------------------------

/// Of the entries with one URL the first is the one kept, and dropping
/// the others keeps the order.
pub proof fn lemma_first_is_kept(s: Seq<TocEntryView>)
    ensures
        in_order(s) ==> in_order(first_by_url(s)),
        forall|i: int|
            0 <= i < first_by_url(s).len() ==> exists|k: int|
                0 <= k < s.len() && s[k] == #[trigger] first_by_url(s)[i] && forall|m: int|
                    0 <= m < k ==> s[m].url != s[k].url,
    decreases s.len(),
{
    if s.len() > 0 {
        let front = s.drop_last();
        let last = s.last();
        lemma_first_is_kept(front);
        lemma_first_by_url(front);
        let d = first_by_url(front);
        let out = first_by_url(s);
        assert forall|i: int| 0 <= i < out.len() implies exists|k: int|
            0 <= k < s.len() && s[k] == #[trigger] out[i] && forall|m: int|
                0 <= m < k ==> s[m].url != s[k].url by {
            if i < d.len() {
                assert(out[i] == d[i]);
                let k = choose|k: int|
                    0 <= k < front.len() && front[k] == d[i] && forall|m: int|
                        0 <= m < k ==> front[m].url != front[k].url;
                assert(s[k] == out[i]);
                assert forall|m: int| 0 <= m < k implies s[m].url != s[k].url by {
                    assert(front[m].url != front[k].url);
                }
            } else {
                let k = s.len() - 1;
                assert(s[k] == out[i]);
                assert forall|m: int| 0 <= m < k implies s[m].url != s[k].url by {
                    if s[m].url == s[k].url {
                        assert(front[m].url == last.url);
                        assert(url_listed(front, last.url));
                    }
                }
            }
        }
        if in_order(s) {
            assert(in_order(front));
            assert forall|i: int, j: int| 0 <= i < j < out.len() implies out[i].index
                <= out[j].index by {
                if j == d.len() {
                    assert(out[i] == d[i]);
                    assert(listed(d, d[i]));
                    assert(listed(front, d[i]));
                    let k = choose|k: int| 0 <= k < front.len() && front[k] == d[i];
                    assert(s[k].index <= s[s.len() - 1].index);
                }
            }
        }
    }
}

/// The merged entries of several pages stand in ascending order of their
/// declared order; no URL occurs twice among them, and every URL of the
/// pages occurs; of the entries with one URL the one kept is the first in
/// the sorted list.
pub proof fn law_merged_pages(pages: Triples)
    ensures
        ({
            let given = entries_of_triples(pages);
            let sorted = sorted_by_index(given);
            let kept = entries_of_triples(merged(pages));
            &&& kept == first_by_url(sorted)
            &&& in_order(kept)
            &&& forall|i: int, j: int| 0 <= i < j < kept.len() ==> kept[i].url != kept[j].url
            &&& forall|u: Seq<char>| url_listed(kept, u) <==> url_listed(given, u)
            &&& forall|x: TocEntryView| listed(kept, x) ==> listed(given, x)
            &&& forall|i: int|
                0 <= i < kept.len() ==> exists|k: int|
                    0 <= k < sorted.len() && sorted[k] == #[trigger] kept[i] && forall|m: int|
                        0 <= m < k ==> sorted[m].url != sorted[k].url
        }),
{
    let given = entries_of_triples(pages);
    let sorted = sorted_by_index(given);
    crate::scraper::scribblehub::lemma_merged_entries(pages);
    lemma_sorted(given);
    lemma_first_by_url(sorted);
    lemma_first_is_kept(sorted);
    let kept = first_by_url(sorted);
    assert forall|u: Seq<char>| url_listed(kept, u) <==> url_listed(given, u) by {
        if url_listed(sorted, u) {
            let k = choose|k: int| 0 <= k < sorted.len() && sorted[k].url == u;
            assert(listed(sorted, sorted[k]));
            assert(listed(given, sorted[k]));
            let g = choose|g: int| 0 <= g < given.len() && given[g] == sorted[k];
            assert(given[g].url == u);
        }
        if url_listed(given, u) {
            let g = choose|g: int| 0 <= g < given.len() && given[g].url == u;
            assert(listed(given, given[g]));
            assert(listed(sorted, given[g]));
            let k = choose|k: int| 0 <= k < sorted.len() && sorted[k] == given[g];
            assert(sorted[k].url == u);
        }
    }
}

// ---------------------------------------------------------------------------
// One failed chapter
// ---------------------------------------------------------------------------

/// An answer that is no readable page of success.
pub open spec fn is_failure(reply: FetchedView) -> bool {
    match reply {
        FetchedView::Response { status, body: Ok(_) } => !crate::scraper::entry::is_success(status),
        _ => true,
    }
}

/// A chapter whose request fails is left out and nothing else changes:
/// the crawl ends as the crawl of a table of contents without that entry
/// does, whatever the policies.
pub proof fn law_failed_chapter_is_omitted(
    chapters: Seq<ChapterView>,
    toc: Seq<TocEntryView>,
    j: int,
    net: Net,
    p: Policy,
)
    requires
        0 <= j < toc.len(),
        toc[j].unlocked,
        is_failure(net(toc[j].url)),
    ensures
        crawl_entries(chapters, toc, net, p) == crawl_entries(chapters, toc.remove(j), net, p),
    decreases j,
{
    if j == 0 {
        assert(toc.remove(0) =~= toc.drop_first());
        assert(entry_effect(chapters, toc[0], net, p) == Ok::<Seq<ChapterView>, ErrorView>(
            chapters,
        ));
    } else {
        let without = toc.remove(j);
        assert(without[0] == toc[0]);
        assert(without.drop_first() =~= toc.drop_first().remove(j - 1));
        match entry_effect(chapters, toc[0], net, p) {
            Ok(next) => {
                law_failed_chapter_is_omitted(next, toc.drop_first(), j - 1, net, p);
            },
            Err(_) => {},
        }
    }
}

/// Some entry of `toc` has the index `index`.
pub open spec fn index_listed(toc: Seq<TocEntryView>, index: u32) -> bool {
    exists|i: int| 0 <= i < toc.len() && toc[i].index == index
}

/// Where every entry is unlocked and its page gives a chapter, the crawl
/// succeeds, and the book then holds its old chapters and one chapter for
/// each index of the table of contents, and no other.
pub proof fn law_healthy_chapters_are_present(
    chapters: Seq<ChapterView>,
    toc: Seq<TocEntryView>,
    net: Net,
    p: Policy,
)
    requires
        ascending(chapters),
        forall|i: int|
            0 <= i < toc.len() ==> toc[i].unlocked && reply_outcome(
                p.site,
                p.empty,
                #[trigger] toc[i],
                net(toc[i].url),
            ) is Append,
    ensures
        crawl_entries(chapters, toc, net, p) matches Ok(r) && ascending(r) && forall|k: u32|
            has_index(r, k) <==> (has_index(chapters, k) || index_listed(toc, k)),
    decreases toc.len(),
{
    if toc.len() > 0 {
        let e = toc[0];
        let rest = toc.drop_first();
        crate::scraper::crawl::lemma_outcome_index(p.site, p.empty, e, net(e.url));
        assert(reply_outcome(p.site, p.empty, toc[0], net(toc[0].url)) is Append);
        let next = entry_effect(chapters, e, net, p)->Ok_0;
        if !has_index(chapters, e.index) {
            let ch = reply_outcome(p.site, p.empty, e, net(e.url))->Append_0;
            lemma_inserted(chapters, ch);
        }
        assert forall|i: int| 0 <= i < rest.len() implies rest[i].unlocked && reply_outcome(
            p.site,
            p.empty,
            #[trigger] rest[i],
            net(rest[i].url),
        ) is Append by {
            assert(rest[i] == toc[i + 1]);
        }
        law_healthy_chapters_are_present(next, rest, net, p);
        let r = crawl_entries(chapters, toc, net, p)->Ok_0;
        assert forall|k: u32|
            has_index(r, k) <==> (has_index(chapters, k) || index_listed(toc, k)) by {
            if index_listed(rest, k) {
                let i = choose|i: int| 0 <= i < rest.len() && rest[i].index == k;
                assert(toc[i + 1].index == k);
            }
            if index_listed(toc, k) {
                let i = choose|i: int| 0 <= i < toc.len() && toc[i].index == k;
                if i > 0 {
                    assert(rest[i - 1].index == k);
                }
            }
            if k == e.index {
                assert(toc[0].index == k);
            }
        }
    }
}

// ---------------------------------------------------------------------------
// Resuming
// ---------------------------------------------------------------------------

/// The chapters of `base` with those of `fresh` put in among them.
pub open spec fn merged_chapters(base: Seq<ChapterView>, fresh: Seq<ChapterView>) -> Seq<
    ChapterView,
>
    decreases fresh.len(),
{
    if fresh.len() == 0 {
        base
    } else {
        inserted(merged_chapters(base, fresh.drop_last()), fresh.last())
    }
}

/// The entries of `toc` whose index no chapter of `base` has.
pub open spec fn unlisted(toc: Seq<TocEntryView>, base: Seq<ChapterView>) -> Seq<TocEntryView>
    decreases toc.len(),
{
    if toc.len() == 0 {
        Seq::<TocEntryView>::empty()
    } else if has_index(base, toc[0].index) {
        unlisted(toc.drop_first(), base)
    } else {
        seq![toc[0]] + unlisted(toc.drop_first(), base)
    }
}

/// No index occurs in both lists.
pub open spec fn apart(a: Seq<ChapterView>, b: Seq<ChapterView>) -> bool {
    forall|k: u32| !(has_index(a, k) && has_index(b, k))
}

pub open spec fn with_base(r: Result<Seq<ChapterView>, ErrorView>, base: Seq<ChapterView>)
    -> Result<Seq<ChapterView>, ErrorView> {
    match r {
        Ok(fresh) => Ok(merged_chapters(base, fresh)),
        Err(e) => Err(e),
    }
}

/// Two chapters of different new indices can be put in in either order.
pub proof fn lemma_insert_commutes(s: Seq<ChapterView>, a: ChapterView, b: ChapterView)
    requires
        ascending(s),
        !has_index(s, a.index),
        !has_index(s, b.index),
        a.index != b.index,
    ensures
        inserted(inserted(s, a), b) == inserted(inserted(s, b), a),
    decreases
            (if a.index < b.index {
                0nat
            } else {
                1nat
            }),
{
    if a.index > b.index {
        lemma_insert_commutes(s, b, a);
    } else {
        crate::model::lemma_rank_ascending(s, a.index);
        crate::model::lemma_rank_ascending(s, b.index);
        let ra = crate::model::rank(s, a.index) as int;
        let rb = crate::model::rank(s, b.index) as int;
        if rb < ra {
            assert(s[rb].index >= b.index);
            assert(s[rb].index < a.index);
        }
        let sa = inserted(s, a);
        let sb = inserted(s, b);
        assert forall|i: int| 0 <= i < s.len() implies s[i].index != a.index && s[i].index
            != b.index by {}
        assert forall|i: int| 0 <= i < rb + 1 implies sa[i].index < b.index by {
            if i < ra {
                assert(sa[i] == s[i]);
            } else if i > ra {
                assert(sa[i] == s[i - 1]);
            }
        }
        assert forall|i: int| rb + 1 <= i < sa.len() implies sa[i].index >= b.index by {
            assert(sa[i] == s[i - 1]);
        }
        crate::model::lemma_rank_split(sa, b.index, rb + 1);
        assert forall|i: int| 0 <= i < ra implies sb[i].index < a.index by {
            assert(sb[i] == s[i]);
        }
        assert forall|i: int| ra <= i < sb.len() implies sb[i].index >= a.index by {
            if i < rb {
                assert(sb[i] == s[i]);
            } else if i > rb {
                assert(sb[i] == s[i - 1]);
            }
        }
        crate::model::lemma_rank_split(sb, a.index, ra);
        assert(sa.insert(rb + 1, b) =~= sb.insert(ra, a));
    }
}

/// Merging keeps the order, and keeps exactly the indices of both lists.
pub proof fn lemma_merged_chapters(base: Seq<ChapterView>, fresh: Seq<ChapterView>)
    requires
        ascending(base),
        ascending(fresh),
        apart(base, fresh),
    ensures
        ascending(merged_chapters(base, fresh)),
        forall|k: u32|
            has_index(merged_chapters(base, fresh), k) <==> (has_index(base, k) || has_index(
                fresh,
                k,
            )),
    decreases fresh.len(),
{
    if fresh.len() > 0 {
        let front = fresh.drop_last();
        let last = fresh.last();
        assert(ascending(front));
        assert forall|k: u32| has_index(front, k) implies has_index(fresh, k) by {
            let i = choose|i: int| 0 <= i < front.len() && front[i].index == k;
            assert(fresh[i].index == k);
        }
        lemma_merged_chapters(base, front);
        let m = merged_chapters(base, front);
        assert(has_index(fresh, last.index)) by {
            assert(fresh[fresh.len() - 1].index == last.index);
        }
        assert(!has_index(front, last.index)) by {
            if has_index(front, last.index) {
                let i = choose|i: int| 0 <= i < front.len() && front[i].index == last.index;
                assert(fresh[i].index < fresh[fresh.len() - 1].index);
            }
        }
        lemma_inserted(m, last);
        assert forall|k: u32|
            has_index(merged_chapters(base, fresh), k) <==> (has_index(base, k) || has_index(
                fresh,
                k,
            )) by {
            if has_index(fresh, k) {
                let i = choose|i: int| 0 <= i < fresh.len() && fresh[i].index == k;
                if i < front.len() {
                    assert(front[i].index == k);
                }
            }
        }
    }
}

/// Putting a chapter into the merged list is merging the list that the
/// chapter was put into.
pub proof fn lemma_merge_insert(base: Seq<ChapterView>, acc: Seq<ChapterView>, ch: ChapterView)
    requires
        ascending(base),
        ascending(acc),
        apart(base, acc),
        !has_index(base, ch.index),
        !has_index(acc, ch.index),
    ensures
        inserted(merged_chapters(base, acc), ch) == merged_chapters(base, inserted(acc, ch)),
    decreases acc.len(),
{
    crate::model::lemma_rank_ascending(acc, ch.index);
    let r = crate::model::rank(acc, ch.index) as int;
    let put = inserted(acc, ch);
    if r == acc.len() {
        assert(put =~= acc.push(ch));
        assert(put.drop_last() =~= acc);
    } else {
        let front = acc.drop_last();
        let last = acc.last();
        assert(ascending(front));
        assert forall|k: u32| has_index(front, k) implies has_index(acc, k) by {
            let i = choose|i: int| 0 <= i < front.len() && front[i].index == k;
            assert(acc[i].index == k);
        }
        assert(has_index(acc, last.index)) by {
            assert(acc[acc.len() - 1].index == last.index);
        }
        assert(!has_index(front, last.index)) by {
            if has_index(front, last.index) {
                let i = choose|i: int| 0 <= i < front.len() && front[i].index == last.index;
                assert(acc[i].index < acc[acc.len() - 1].index);
            }
        }
        assert(last.index > ch.index) by {
            assert(acc[acc.len() - 1].index >= ch.index);
        }
        // the chapter goes in before the last one
        assert forall|i: int| 0 <= i < r implies front[i].index < ch.index by {
            assert(front[i] == acc[i]);
        }
        assert forall|i: int| r <= i < front.len() implies front[i].index >= ch.index by {
            assert(front[i] == acc[i]);
        }
        crate::model::lemma_rank_split(front, ch.index, r);
        assert(put =~= inserted(front, ch).push(last));
        assert(put.drop_last() =~= inserted(front, ch));
        lemma_merge_insert(base, front, ch);
        lemma_merged_chapters(base, front);
        lemma_insert_commutes(merged_chapters(base, front), ch, last);
    }
}

/// Resuming, with the chapters fetched so far in the book.
proof fn lemma_resume(
    base: Seq<ChapterView>,
    acc: Seq<ChapterView>,
    toc: Seq<TocEntryView>,
    net: Net,
    p: Policy,
)
    requires
        ascending(base),
        ascending(acc),
        apart(base, acc),
    ensures
        crawl_entries(merged_chapters(base, acc), toc, net, p) == with_base(
            crawl_entries(acc, unlisted(toc, base), net, p),
            base,
        ),
    decreases toc.len(), 0nat,
{
    lemma_merged_chapters(base, acc);
    let m = merged_chapters(base, acc);
    if toc.len() > 0 {
        let e = toc[0];
        let rest = toc.drop_first();
        if has_index(base, e.index) {
            assert(has_index(m, e.index));
            assert(entry_effect(m, e, net, p) == Ok::<Seq<ChapterView>, ErrorView>(m));
            lemma_resume(base, acc, rest, net, p);
        } else {
            let fresh_toc = unlisted(toc, base);
            assert(fresh_toc[0] == e);
            assert(fresh_toc.drop_first() =~= unlisted(rest, base));
            assert(has_index(m, e.index) == has_index(acc, e.index));
            crate::scraper::crawl::lemma_outcome_index(p.site, p.empty, e, net(e.url));
            match entry_plan(acc, e, p.locked) {
                Plan::Present => {
                    lemma_resume(base, acc, rest, net, p);
                },
                Plan::LockedOmit => {
                    lemma_resume(base, acc, rest, net, p);
                },
                Plan::LockedAppend(ch) => {
                    lemma_resume_step(base, acc, ch, rest, net, p);
                },
                Plan::LockedAbort => {},
                Plan::Fetch => {
                    match reply_outcome(p.site, p.empty, e, net(e.url)) {
                        Outcome::Append(ch) => {
                            lemma_resume_step(base, acc, ch, rest, net, p);
                        },
                        Outcome::Omit => {
                            lemma_resume(base, acc, rest, net, p);
                        },
                        Outcome::Abort(_) => {},
                    }
                },
            }
        }
    }
}

/// Resuming, once a new chapter is put into the book.
proof fn lemma_resume_step(
    base: Seq<ChapterView>,
    acc: Seq<ChapterView>,
    ch: ChapterView,
    rest: Seq<TocEntryView>,
    net: Net,
    p: Policy,
)
    requires
        ascending(base),
        ascending(acc),
        apart(base, acc),
        !has_index(base, ch.index),
        !has_index(acc, ch.index),
    ensures
        crawl_entries(inserted(merged_chapters(base, acc), ch), rest, net, p) == with_base(
            crawl_entries(inserted(acc, ch), unlisted(rest, base), net, p),
            base,
        ),
    decreases rest.len(), 1nat,
{
    lemma_inserted(acc, ch);
    lemma_merge_insert(base, acc, ch);
    let next = inserted(acc, ch);
    assert forall|k: u32| !(has_index(base, k) && has_index(next, k)) by {}
    lemma_resume(base, next, rest, net, p);
}

/// Resuming from a book that holds some chapters gives the book of a
/// crawl from scratch of the entries that the book lacks, merged into
/// it; and it fails where that crawl fails, with its error.
pub proof fn law_resume(base: Seq<ChapterView>, toc: Seq<TocEntryView>, net: Net, p: Policy)
    requires
        ascending(base),
    ensures
        crawl_entries(base, toc, net, p) == with_base(
            crawl_entries(Seq::<ChapterView>::empty(), unlisted(toc, base), net, p),
            base,
        ),
{
    let none = Seq::<ChapterView>::empty();
    assert(merged_chapters(base, none) == base);
    lemma_resume(base, none, toc, net, p);
}

/// What a crawl makes of a book does not depend on the answers for the
/// chapters that the book holds: they are not asked for.
pub proof fn law_resume_does_not_refetch(
    chapters: Seq<ChapterView>,
    toc: Seq<TocEntryView>,
    net: Net,
    other: Net,
    p: Policy,
)
    requires
        ascending(chapters),
        forall|i: int|
            0 <= i < toc.len() && !has_index(chapters, #[trigger] toc[i].index) ==> net(
                toc[i].url,
            ) == other(toc[i].url),
    ensures
        crawl_entries(chapters, toc, net, p) == crawl_entries(chapters, toc, other, p),
    decreases toc.len(),
{
    if toc.len() > 0 {
        let e = toc[0];
        let rest = toc.drop_first();
        crate::scraper::crawl::lemma_outcome_index(p.site, p.empty, e, net(e.url));
        assert(!has_index(chapters, toc[0].index) ==> net(e.url) == other(e.url));
        match entry_effect(chapters, e, net, p) {
            Err(_) => {},
            Ok(next) => {
                if next != chapters {
                    let ch = choose|ch: ChapterView|
                        ch.index == e.index && next == inserted(chapters, ch);
                    lemma_inserted(chapters, ch);
                }
                assert forall|i: int|
                    0 <= i < rest.len() && !has_index(next, #[trigger] rest[i].index) implies net(
                    rest[i].url,
                ) == other(rest[i].url) by {
                    assert(rest[i] == toc[i + 1]);
                    assert(!has_index(chapters, toc[i + 1].index));
                }
                law_resume_does_not_refetch(next, rest, net, other, p);
            },
        }
    }
}

} // verus!
