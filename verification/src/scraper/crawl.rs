//! The crawl as a machine of steps. The machine sends nothing itself: each
//! step says what to do next (fetch a page, report a chapter, stop), and
//! the next step is given what came back. So every decision of a crawl is
//! a function of the state and of the answers it was given.

use crate::model::{ascending, has_index, inserted, Book, BookView, Chapter, ChapterView};
use crate::scraper::entry::{
    check_response, checked, entry_plan, outcome_of_reply, plan_entry, reply_outcome, EntryOutcome,
    EntryPlan, Fetched, FetchedView, Outcome, Plan,
};
use crate::scraper::error::{ErrorView, ScraperError};
use crate::scraper::metadata::Metadata;
use crate::scraper::royalroad::{fiction_url, royalroad_metadata, royalroad_toc};
use crate::scraper::scribblehub::{
    merged, next_toc_page, scribblehub_base, scribblehub_metadata, series_id, series_url,
    toc_page, Triples,
};
use crate::scraper::toc::{
    count_locked,
    entries_of_triples,
    entry_views,
    filter_range,
    locked_count,
    triple_views,
    within_range,
    TocEntry,
    TocEntryView,
};
use crate::scraper::{EmptyChapterBehavior, LockedChapterBehavior, ScrapeOptions, Site};
use crate::text::{chars_of, same_chars, string_of, strip_trailing, without_trailing};
use vstd::prelude::*;

verus! {

/// Where a crawl stands.
#[derive(Debug, Clone, Copy, PartialEq, Eq, Structural)]
pub enum Stage {
    /// Nothing was asked for yet.
    Start,
    /// The index page was asked for.
    Index,
    /// The full chapter list was asked for.
    FullList,
    /// A further page of the chapter list was asked for.
    ListPage,
    /// The next entry of the table of contents is to be decided on.
    Chapter,
    /// The page of the current entry was asked for.
    ChapterPage,
    /// The crawl is over.
    Done,
}

/// What a step asks its caller to do.
#[derive(Debug)]
pub enum Action {
    /// Fetch `url` and hand the answer to the next step.
    Get { url: String },
    /// Post the form `fields` to `url` and hand the answer to the next step.
    PostForm { url: String, fields: Vec<(String, String)> },
    /// The table of contents is known; it lists `total` chapters.
    Listed { total: u32 },
    /// A chapter was added to the book: save the book, report progress.
    /// `done` counts the chapters that this crawl has added so far,
    /// placeholders included; chapters passed over are not counted.
    Appended { index: u32, done: u32, total: u32 },
    /// The chapter of this index was passed over.
    Skipped { index: u32 },
    /// The crawl is complete: the book can be taken.
    Finished,
    /// The crawl failed.
    Failed(ScraperError),
    /// The crawl was over before this step.
    Idle,
}

/// An `Action` as mathematical values.
pub ghost enum ActionView {
    Get { url: Seq<char> },
    PostForm { url: Seq<char>, fields: Seq<(Seq<char>, Seq<char>)> },
    Listed { total: u32 },
    Appended { index: u32, done: u32, total: u32 },
    Skipped { index: u32 },
    Finished,
    Failed(ErrorView),
    Idle,
}

pub open spec fn field_views(s: Seq<(String, String)>) -> Seq<(Seq<char>, Seq<char>)> {
    s.map_values(|f: (String, String)| (f.0@, f.1@))
}

impl View for Action {
    type V = ActionView;

    open spec fn view(&self) -> ActionView {
        match *self {
            Action::Get { url } => ActionView::Get { url: url@ },
            Action::PostForm { url, fields } => ActionView::PostForm {
                url: url@,
                fields: field_views(fields@),
            },
            Action::Listed { total } => ActionView::Listed { total },
            Action::Appended { index, done, total } => ActionView::Appended { index, done, total },
            Action::Skipped { index } => ActionView::Skipped { index },
            Action::Finished => ActionView::Finished,
            Action::Failed(e) => ActionView::Failed(e@),
            Action::Idle => ActionView::Idle,
        }
    }
}

/// The state of a crawl as mathematical values.
pub ghost struct CrawlView {
    pub site: Site,
    pub url: Seq<char>,
    pub range: Option<(u32, u32)>,
    pub locked: LockedChapterBehavior,
    pub empty: EmptyChapterBehavior,
    pub toc_only: bool,
    pub resume: Option<BookView>,
    pub stage: Stage,
    pub index_html: Seq<char>,
    pub page_url: Seq<char>,
    pub gathered: Triples,
    pub toc: Seq<TocEntryView>,
    pub cursor: nat,
    pub total: u32,
    pub done: u32,
    pub locked_total: usize,
    pub book: BookView,
}

/// The state of one crawl.
pub struct Crawl {
    site: Site,
    url: String,
    range: Option<(u32, u32)>,
    locked: LockedChapterBehavior,
    empty: EmptyChapterBehavior,
    toc_only: bool,
    resume: Option<Book>,
    stage: Stage,
    index_html: String,
    page_url: String,
    gathered: Vec<(u32, String, String)>,
    toc: Vec<TocEntry>,
    cursor: usize,
    total: u32,
    done: u32,
    locked_total: usize,
    book: Book,
}

// ---------------------------------------------------------------------------
// What a step does
// ---------------------------------------------------------------------------

/// The crawl stops with the error `e`.
pub open spec fn aborted(c: CrawlView, e: ErrorView) -> (CrawlView, ActionView) {
    (CrawlView { stage: Stage::Done, ..c }, ActionView::Failed(e))
}

pub open spec fn site_metadata(site: Site, html: Seq<char>) -> Result<Metadata, ErrorView> {
    match site {
        Site::RoyalRoad => royalroad_metadata(html),
        Site::ScribbleHub => scribblehub_metadata(html),
    }
}

/// The URL to crawl, checked to be that of a story of the site.
pub open spec fn site_url(site: Site, url: Seq<char>) -> Result<Seq<char>, ErrorView> {
    match site {
        Site::RoyalRoad => fiction_url(url),
        Site::ScribbleHub => series_url(url),
    }
}

/// A book without chapters, with the metadata of the index page.
pub open spec fn fresh_book(m: Metadata, url: Seq<char>) -> BookView {
    BookView {
        title: m.0,
        author: m.1,
        description: m.2,
        cover_url: m.3,
        chapters: Seq::<ChapterView>::empty(),
        source_url: Some(url),
    }
}

/// The book that the crawl fills: the book to resume, as it is, or a
/// fresh one from the metadata of the index page.
pub open spec fn base_book(c: CrawlView, html: Seq<char>) -> Result<BookView, ErrorView> {
    match c.resume {
        Some(b) => Ok(b),
        None => match site_metadata(c.site, html) {
            Ok(m) => Ok(fresh_book(m, c.url)),
            Err(e) => Err(e),
        },
    }
}

/// A count as a 32-bit number, the largest one where it does not fit.
pub open spec fn capped(n: nat) -> u32 {
    if n > u32::MAX {
        u32::MAX
    } else {
        n as u32
    }
}

/// One more, as long as the number can grow.
pub open spec fn bumped(n: u32) -> u32 {
    if n < u32::MAX {
        (n + 1) as u32
    } else {
        n
    }
}

/// The chapter that stands for an entry when chapters are only listed:
/// title and index, no body; for a locked entry a placeholder, or nothing.
pub open spec fn listed_chapter(e: TocEntryView, locked: LockedChapterBehavior) -> Option<
    ChapterView,
> {
    if e.unlocked {
        Some(ChapterView { title: e.title, index: e.index, body: Seq::<char>::empty() })
    } else if locked == LockedChapterBehavior::Placeholder {
        Some(
            ChapterView {
                title: e.title + " (locked)"@,
                index: e.index,
                body: Seq::<char>::empty(),
            },
        )
    } else {
        None
    }
}

/// The chapters of a book when the entries of `toc` are only listed:
/// each entry whose index is new adds its chapter.
pub open spec fn listed_only(
    chapters: Seq<ChapterView>,
    toc: Seq<TocEntryView>,
    locked: LockedChapterBehavior,
) -> Seq<ChapterView>
    decreases toc.len(),
{
    if toc.len() == 0 {
        chapters
    } else {
        let next = if has_index(chapters, toc[0].index) {
            chapters
        } else {
            match listed_chapter(toc[0], locked) {
                Some(ch) => inserted(chapters, ch),
                None => chapters,
            }
        };
        listed_only(next, toc.drop_first(), locked)
    }
}

/// What follows once the table of contents is known. An empty table, and
/// a locked chapter under the policy to fail, end the crawl before any
/// chapter is fetched. Else the number of chapters is recorded, the table
/// is cut to the range, and the book is set up; when chapters are only to
/// be listed the crawl is complete at once.
pub open spec fn planned(c: CrawlView, html: Seq<char>, toc: Seq<TocEntryView>) -> (
    CrawlView,
    ActionView,
) {
    if toc.len() == 0 {
        aborted(c, ErrorView::EmptyChapterList)
    } else if locked_count(toc) > 0 && c.locked == LockedChapterBehavior::Fail {
        aborted(c, ErrorView::LockedChaptersNotAllowed { count: locked_count(toc) as usize })
    } else {
        match base_book(c, html) {
            Err(e) => aborted(c, e),
            Ok(book) => {
                let kept = within_range(toc, c.range);
                let known = CrawlView {
                    toc: kept,
                    cursor: 0,
                    done: 0,
                    total: capped(toc.len()),
                    locked_total: locked_count(toc) as usize,
                    ..c
                };
                if c.toc_only {
                    (
                        CrawlView {
                            stage: Stage::Done,
                            book: BookView {
                                chapters: listed_only(book.chapters, kept, c.locked),
                                ..book
                            },
                            ..known
                        },
                        ActionView::Finished,
                    )
                } else {
                    (
                        CrawlView { stage: Stage::Chapter, book, ..known },
                        ActionView::Listed { total: capped(toc.len()) },
                    )
                }
            },
        }
    }
}

pub open spec fn list_url() -> Seq<char> {
    "https://www.scribblehub.com/wp-admin/admin-ajax.php"@
}

/// The form that asks for all chapters of the series `id` at once.
pub open spec fn list_fields(id: Seq<char>) -> Seq<(Seq<char>, Seq<char>)> {
    seq![("action"@, "wi_getreleases_pagination"@), ("pagenum"@, "-1"@), ("mypostid"@, id)]
}

/// What follows a page of the chapter list: the next page is asked for
/// while there is one; then the pages are merged, and a merged list
/// without entries ends the crawl.
pub open spec fn after_page(c: CrawlView, html: Seq<char>, current: Seq<char>) -> (
    CrawlView,
    ActionView,
) {
    match next_toc_page(html, c.url, Some(current)) {
        Some(next) => (
            CrawlView { stage: Stage::ListPage, page_url: next, ..c },
            ActionView::Get { url: next },
        ),
        None => if merged(c.gathered).len() == 0 {
            aborted(c, ErrorView::EmptyChapterList)
        } else {
            planned(c, c.index_html, entries_of_triples(merged(c.gathered)))
        },
    }
}

/// The chapter list is read page by page, from the index page on.
pub open spec fn start_pages(c: CrawlView) -> (CrawlView, ActionView) {
    match toc_page(c.index_html, scribblehub_base()) {
        Err(e) => aborted(c, e),
        Ok(entries) => after_page(CrawlView { gathered: entries, ..c }, c.index_html, c.url),
    }
}

/// The step that is given the answer for the index page.
pub open spec fn on_index(c: CrawlView, reply: FetchedView) -> (CrawlView, ActionView) {
    match checked(reply, c.url, "story page"@) {
        Err(e) => aborted(c, e),
        Ok(html) => match c.site {
            Site::RoyalRoad => match royalroad_toc(html) {
                Err(e) => aborted(c, e),
                Ok(toc) => planned(c, html, toc),
            },
            Site::ScribbleHub => match series_id(c.url) {
                Some(id) => (
                    CrawlView { stage: Stage::FullList, index_html: html, ..c },
                    ActionView::PostForm { url: list_url(), fields: list_fields(id) },
                ),
                None => start_pages(CrawlView { index_html: html, ..c }),
            },
        },
    }
}

/// The step that is given the answer for the full chapter list. A list
/// without entries sends the crawl to the pages of the list.
pub open spec fn on_full_list(c: CrawlView, reply: FetchedView) -> (CrawlView, ActionView) {
    match checked(reply, list_url(), "TOC AJAX"@) {
        Err(e) => aborted(c, e),
        Ok(html) => match toc_page(html, scribblehub_base()) {
            Err(e) => aborted(c, e),
            Ok(entries) => if merged(entries).len() > 0 {
                planned(c, c.index_html, entries_of_triples(merged(entries)))
            } else {
                start_pages(c)
            },
        },
    }
}

/// The step that is given the answer for a further page of the chapter list.
pub open spec fn on_list_page(c: CrawlView, reply: FetchedView) -> (CrawlView, ActionView) {
    match checked(reply, c.page_url, "TOC page"@) {
        Err(e) => aborted(c, e),
        Ok(html) => match toc_page(html, scribblehub_base()) {
            Err(e) => aborted(c, e),
            Ok(entries) => after_page(
                CrawlView { gathered: c.gathered + entries, ..c },
                html,
                c.page_url,
            ),
        },
    }
}

/// The chapter `ch` is put into the book, and the crawl moves on.
pub open spec fn appended(c: CrawlView, ch: ChapterView) -> (CrawlView, ActionView) {
    (
        CrawlView {
            stage: Stage::Chapter,
            cursor: c.cursor + 1,
            done: bumped(c.done),
            book: BookView { chapters: inserted(c.book.chapters, ch), ..c.book },
            ..c
        },
        ActionView::Appended { index: ch.index, done: bumped(c.done), total: c.total },
    )
}

/// The current entry is passed over, and the crawl moves on.
pub open spec fn passed(c: CrawlView) -> (CrawlView, ActionView) {
    (
        CrawlView { stage: Stage::Chapter, cursor: c.cursor + 1, ..c },
        ActionView::Skipped { index: c.toc[c.cursor as int].index },
    )
}

/// The step that decides on the current entry. Behind the last entry the
/// crawl is complete, unless the book has no chapter at all.
pub open spec fn on_chapter(c: CrawlView) -> (CrawlView, ActionView) {
    if c.cursor >= c.toc.len() {
        if c.book.chapters.len() == 0 {
            aborted(c, ErrorView::NoChaptersRetrieved)
        } else {
            (CrawlView { stage: Stage::Done, ..c }, ActionView::Finished)
        }
    } else {
        match entry_plan(c.book.chapters, c.toc[c.cursor as int], c.locked) {
            Plan::Present => passed(c),
            Plan::LockedOmit => passed(c),
            Plan::LockedAppend(ch) => appended(c, ch),
            Plan::LockedAbort => aborted(
                c,
                ErrorView::LockedChaptersNotAllowed { count: c.locked_total },
            ),
            Plan::Fetch => (
                CrawlView { stage: Stage::ChapterPage, ..c },
                ActionView::Get { url: c.toc[c.cursor as int].url },
            ),
        }
    }
}

/// The step that is given the answer for the page of the current entry.
pub open spec fn on_chapter_page(c: CrawlView, reply: FetchedView) -> (CrawlView, ActionView) {
    match reply_outcome(c.site, c.empty, c.toc[c.cursor as int], reply) {
        Outcome::Append(ch) => appended(c, ch),
        Outcome::Omit => passed(c),
        Outcome::Abort(e) => aborted(c, e),
    }
}

/// The answer that a step works on; a step that is owed an answer and
/// gets none takes the request as failed.
pub open spec fn answer(reply: Option<FetchedView>) -> FetchedView {
    match reply {
        Some(r) => r,
        None => FetchedView::Failed { reason: "no answer"@ },
    }
}

/// One step of a crawl: the state after it, and what it asks for.
pub open spec fn stepped(c: CrawlView, reply: Option<FetchedView>) -> (CrawlView, ActionView) {
    match c.stage {
        Stage::Start => (CrawlView { stage: Stage::Index, ..c }, ActionView::Get { url: c.url }),
        Stage::Index => on_index(c, answer(reply)),
        Stage::FullList => on_full_list(c, answer(reply)),
        Stage::ListPage => on_list_page(c, answer(reply)),
        Stage::Chapter => on_chapter(c),
        Stage::ChapterPage => on_chapter_page(c, answer(reply)),
        Stage::Done => (c, ActionView::Idle),
    }
}

/// What holds of the state of every crawl: the book is in order, the
/// cursor is within the table of contents, and a chapter page is only
/// awaited for an entry whose chapter the book does not hold.
pub open spec fn crawl_wf(c: CrawlView) -> bool {
    &&& ascending(c.book.chapters)
    &&& c.cursor <= c.toc.len()
    &&& c.resume matches Some(b) ==> ascending(b.chapters)
    &&& c.stage == Stage::ChapterPage ==> c.cursor < c.toc.len() && !has_index(
        c.book.chapters,
        c.toc[c.cursor as int].index,
    )
}

pub open spec fn reply_view(reply: Option<Fetched>) -> Option<FetchedView> {
    match reply {
        Some(r) => Some(r@),
        None => None,
    }
}

pub open spec fn book_option(b: Option<Book>) -> Option<BookView> {
    match b {
        Some(x) => Some(x@),
        None => None,
    }
}

pub open spec fn book_ref_option(b: Option<&Book>) -> Option<BookView> {
    match b {
        Some(x) => Some(x@),
        None => None,
    }
}

// ---------------------------------------------------------------------------
// Starting a crawl
// ---------------------------------------------------------------------------

/// Whether a book to resume was crawled from another URL than `url`; a
/// slash at the end makes no difference.
pub open spec fn resume_mismatch(resume: Option<BookView>, url: Seq<char>) -> Option<Seq<char>> {
    match resume {
        Some(b) => match b.source_url {
            Some(s) => if without_trailing(s, '/') != without_trailing(url, '/') {
                Some(s)
            } else {
                None
            },
            None => None,
        },
        None => None,
    }
}

pub open spec fn empty_book() -> BookView {
    BookView {
        title: Seq::<char>::empty(),
        author: Seq::<char>::empty(),
        description: None,
        cover_url: None,
        chapters: Seq::<ChapterView>::empty(),
        source_url: None,
    }
}

/// A book to resume, with its chapters put in order.
pub open spec fn in_order_book(resume: Option<BookView>) -> Option<BookView> {
    match resume {
        Some(b) => Some(BookView { chapters: crate::model::normalized(b.chapters), ..b }),
        None => None,
    }
}

/// The state in which a crawl starts, or the reason why it does not: a
/// book to resume that belongs to another URL, or a URL that is not that
/// of a story of the site. Both are found before anything is fetched. A
/// book to resume is taken as it is, but for chapters out of order.
pub open spec fn started(
    site: Site,
    url: Seq<char>,
    range: Option<(u32, u32)>,
    resume: Option<BookView>,
    locked: Option<LockedChapterBehavior>,
    empty: Option<EmptyChapterBehavior>,
    toc_only: bool,
) -> Result<CrawlView, ErrorView> {
    match resume_mismatch(resume, url) {
        Some(s) => Err(ErrorView::ResumeMismatch { resumed: s, requested: url }),
        None => match site_url(site, url) {
            Err(e) => Err(e),
            Ok(u) => Ok(
                CrawlView {
                    site,
                    url: u,
                    range,
                    locked: match locked {
                        Some(l) => l,
                        None => LockedChapterBehavior::Skip,
                    },
                    empty: match empty {
                        Some(e) => e,
                        None => EmptyChapterBehavior::Skip,
                    },
                    toc_only,
                    resume: in_order_book(resume),
                    stage: Stage::Start,
                    index_html: Seq::<char>::empty(),
                    page_url: Seq::<char>::empty(),
                    gathered: Seq::<(u32, Seq<char>, Seq<char>)>::empty(),
                    toc: Seq::<TocEntryView>::empty(),
                    cursor: 0,
                    total: 0,
                    done: 0,
                    locked_total: 0,
                    book: empty_book(),
                },
            ),
        },
    }
}

pub open spec fn crawl_result(r: Result<Crawl, ScraperError>) -> Result<CrawlView, ErrorView> {
    match r {
        Ok(c) => Ok(c@),
        Err(e) => Err(e@),
    }
}

/// Whether two URLs are the same but for slashes at the end.
pub fn same_url(a: &str, b: &str) -> (r: bool)
    ensures
        r == (without_trailing(a@, '/') == without_trailing(b@, '/')),
{
    let x = chars_of(a);
    let y = chars_of(b);
    let x0 = strip_trailing(x.as_slice(), '/');
    let y0 = strip_trailing(y.as_slice(), '/');
    same_chars(x0.as_slice(), y0.as_slice())
}

impl Crawl {
    pub closed spec fn view(&self) -> CrawlView {
        CrawlView {
            site: self.site,
            url: self.url@,
            range: self.range,
            locked: self.locked,
            empty: self.empty,
            toc_only: self.toc_only,
            resume: book_option(self.resume),
            stage: self.stage,
            index_html: self.index_html@,
            page_url: self.page_url@,
            gathered: triple_views(self.gathered@),
            toc: entry_views(self.toc@),
            cursor: self.cursor as nat,
            total: self.total,
            done: self.done,
            locked_total: self.locked_total,
            book: self.book@,
        }
    }

    #[verifier::type_invariant]
    spec fn inv(self) -> bool {
        crawl_wf(self@)
    }

    /// Sets up the crawl of `url` on `site`. Nothing is fetched: a book to
    /// resume that was crawled from another URL, and a URL that is not
    /// that of a story, are refused here.
    pub fn new(site: Site, url: &str, options: &ScrapeOptions<'_>) -> (r: Result<
        Crawl,
        ScraperError,
    >)
        ensures
            crawl_result(r) == started(
                site,
                url@,
                options.chapter_range,
                book_ref_option(options.initial_book),
                options.locked_behavior,
                options.empty_chapter_behavior,
                options.toc_only,
            ),
    {
        let resume: Option<Book> = match options.initial_book {
            Some(b) => Some(b.normalized_copy()),
            None => None,
        };
        if let Some(b) = &resume {
            if let Some(s) = &b.source_url {
                if !same_url(s.as_str(), url) {
                    return Err(
                        ScraperError::ResumeMismatch {
                            resumed: s.clone(),
                            requested: url.to_string(),
                        },
                    );
                }
            }
        }
        let checked_url = match site {
            Site::RoyalRoad => crate::scraper::royalroad::ensure_fiction_url(url)?,
            Site::ScribbleHub => crate::scraper::scribblehub::ensure_series_url(url)?,
        };
        let c = Crawl {
            site,
            url: checked_url,
            range: options.chapter_range,
            locked: match options.locked_behavior {
                Some(l) => l,
                None => LockedChapterBehavior::Skip,
            },
            empty: match options.empty_chapter_behavior {
                Some(e) => e,
                None => EmptyChapterBehavior::Skip,
            },
            toc_only: options.toc_only,
            resume,
            stage: Stage::Start,
            index_html: String::new(),
            page_url: String::new(),
            gathered: Vec::new(),
            toc: Vec::new(),
            cursor: 0,
            total: 0,
            done: 0,
            locked_total: 0,
            book: Book {
                title: String::new(),
                author: String::new(),
                description: None,
                cover_url: None,
                chapters: Vec::new(),
                source_url: None,
            },
        };
        assert(c@.gathered =~= Seq::<(u32, Seq<char>, Seq<char>)>::empty());
        assert(c@.toc =~= Seq::<TocEntryView>::empty());
        assert(c@.book.chapters =~= Seq::<ChapterView>::empty());
        Ok(c)
    }

    /// Ends the crawl where it stands: every later step is idle. The book
    /// keeps the chapters added so far.
    pub fn cancel(&mut self)
        ensures
            final(self)@ == (CrawlView { stage: Stage::Done, ..old(self)@ }),
    {
        proof {
            use_type_invariant(&*self);
        }
        self.stage = Stage::Done;
    }

    /// Where the crawl stands.
    pub fn stage(&self) -> (s: Stage)
        ensures
            s == self@.stage,
    {
        self.stage
    }

    /// The book as it stands: complete once a step said `Finished`, and a
    /// snapshot of the progress before.
    pub fn book(&self) -> (b: &Book)
        ensures
            b@ == self@.book,
            b.wf(),
    {
        proof {
            use_type_invariant(self);
        }
        &self.book
    }

    /// Ends the crawl and hands out the book.
    pub fn into_book(self) -> (b: Book)
        ensures
            b@ == self@.book,
            b.wf(),
    {
        proof {
            use_type_invariant(&self);
        }
        self.book
    }

    /// The number of chapters that the table of contents lists.
    pub fn total(&self) -> (n: u32)
        ensures
            n == self@.total,
    {
        self.total
    }

    /// The number of chapters added to the book by this crawl.
    pub fn done(&self) -> (n: u32)
        ensures
            n == self@.done,
    {
        self.done
    }
}

// ---------------------------------------------------------------------------
// The steps
// ---------------------------------------------------------------------------

/// A chapter that an answer adds has the index of its entry.
pub proof fn lemma_outcome_index(
    site: Site,
    empty: EmptyChapterBehavior,
    e: TocEntryView,
    reply: FetchedView,
)
    ensures
        reply_outcome(site, empty, e, reply) matches Outcome::Append(ch) ==> ch.index == e.index,
{
}

/// Adds to the book the chapters that stand for the entries when
/// chapters are only listed.
pub fn list_chapters(book: &mut Book, toc: &Vec<TocEntry>, locked: LockedChapterBehavior)
    requires
        old(book).wf(),
    ensures
        final(book)@ == (BookView {
            chapters: listed_only(old(book)@.chapters, entry_views(toc@), locked),
            ..old(book)@
        }),
        final(book).wf(),
{
    let ghost all = entry_views(toc@);
    let ghost first = book@.chapters;
    let mut i: usize = 0;
    assert(all.skip(0) =~= all);
    while i < toc.len()
        invariant
            i <= toc.len(),
            all == entry_views(toc@),
            book.wf(),
            book@ == (BookView { chapters: book@.chapters, ..old(book)@ }),
            listed_only(first, all, locked) == listed_only(
                book@.chapters,
                all.skip(i as int),
                locked,
            ),
        decreases toc.len() - i,
    {
        assert(all.skip(i as int).drop_first() =~= all.skip(i + 1));
        assert(all.skip(i as int)[0] == all[i as int]);
        let e = &toc[i];
        if !book.has_chapter(e.index) {
            if e.unlocked {
                book.insert_chapter(
                    Chapter { title: e.title.clone(), index: e.index, body: String::new() },
                );
            } else if locked == LockedChapterBehavior::Placeholder {
                let mut title = chars_of(e.title.as_str());
                crate::text::append_str(&mut title, " (locked)");
                book.insert_chapter(
                    Chapter {
                        title: string_of(title.as_slice()),
                        index: e.index,
                        body: String::new(),
                    },
                );
            }
        }
        i += 1;
    }
}

fn blank_book() -> (b: Book)
    ensures
        b@ == empty_book(),
        b.wf(),
{
    let b = Book {
        title: String::new(),
        author: String::new(),
        description: None,
        cover_url: None,
        chapters: Vec::new(),
        source_url: None,
    };
    assert(b@.chapters =~= Seq::<ChapterView>::empty());
    b
}

fn answer_of(reply: Option<Fetched>) -> (r: Fetched)
    ensures
        r@ == answer(reply_view(reply)),
{
    match reply {
        Some(r) => r,
        None => Fetched::Failed { reason: "no answer".to_string() },
    }
}

fn list_form(id: String) -> (fields: Vec<(String, String)>)
    ensures
        field_views(fields@) == list_fields(id@),
{
    let mut fields: Vec<(String, String)> = Vec::new();
    fields.push(("action".to_string(), "wi_getreleases_pagination".to_string()));
    fields.push(("pagenum".to_string(), "-1".to_string()));
    fields.push(("mypostid".to_string(), id));
    assert(field_views(fields@) =~= list_fields(id@));
    fields
}

impl Crawl {
    fn abort(&mut self, e: ScraperError) -> (a: Action)
        ensures
            (final(self)@, a@) == aborted(old(self)@, e@),
    {
        proof {
            use_type_invariant(&*self);
        }
        self.stage = Stage::Done;
        Action::Failed(e)
    }

    fn pass(&mut self) -> (a: Action)
        requires
            old(self)@.cursor < old(self)@.toc.len(),
        ensures
            (final(self)@, a@) == passed(old(self)@),
    {
        proof {
            use_type_invariant(&*self);
        }
        assert(self.cursor < self.toc.len());
        let index = self.toc[self.cursor].index;
        self.stage = Stage::Chapter;
        self.cursor = self.cursor + 1;
        Action::Skipped { index }
    }

    fn append(&mut self, chapter: Chapter) -> (a: Action)
        requires
            old(self)@.cursor < old(self)@.toc.len(),
            !has_index(old(self)@.book.chapters, chapter.index),
        ensures
            (final(self)@, a@) == appended(old(self)@, chapter@),
    {
        proof {
            use_type_invariant(&*self);
        }
        assert(self.cursor < self.toc.len());
        let index = chapter.index;
        self.stage = Stage::Chapter;
        let mut book = blank_book();
        std::mem::swap(&mut self.book, &mut book);
        book.insert_chapter(chapter);
        self.book = book;
        self.cursor = self.cursor + 1;
        if self.done < u32::MAX {
            self.done = self.done + 1;
        }
        Action::Appended { index, done: self.done, total: self.total }
    }

    fn base(&self, html: &str) -> (r: Result<Book, ScraperError>)
        ensures
            match r {
                Ok(b) => base_book(self@, html@) == Ok::<BookView, ErrorView>(b@) && b.wf(),
                Err(e) => base_book(self@, html@) == Err::<BookView, ErrorView>(e@),
            },
    {
        proof {
            use_type_invariant(self);
        }
        match &self.resume {
            Some(b) => Ok(b.snapshot()),
            None => {
                let m = match self.site {
                    Site::RoyalRoad => crate::scraper::royalroad::parse_metadata(html),
                    Site::ScribbleHub => crate::scraper::scribblehub::parse_metadata(html),
                };
                match m {
                    Err(e) => Err(e),
                    Ok((title, author, description, cover_url)) => {
                        let b = Book {
                            title,
                            author,
                            description,
                            cover_url,
                            chapters: Vec::new(),
                            source_url: Some(self.url.clone()),
                        };
                        assert(b@.chapters =~= Seq::<ChapterView>::empty());
                        Ok(b)
                    },
                }
            },
        }
    }

    fn plan(&mut self, html: &str, toc: Vec<TocEntry>) -> (a: Action)
        ensures
            (final(self)@, a@) == planned(old(self)@, html@, entry_views(toc@)),
    {
        if toc.len() == 0 {
            return self.abort(ScraperError::EmptyChapterList);
        }
        let locked_total = count_locked(&toc);
        if locked_total > 0 && self.locked == LockedChapterBehavior::Fail {
            return self.abort(ScraperError::LockedChaptersNotAllowed { count: locked_total });
        }
        let mut book = match self.base(html) {
            Err(e) => {
                return self.abort(e);
            },
            Ok(b) => b,
        };
        let total: u32 = if toc.len() > 0xFFFF_FFFF {
            0xFFFF_FFFF
        } else {
            toc.len() as u32
        };
        let kept = filter_range(toc, self.range);
        if self.toc_only {
            list_chapters(&mut book, &kept, self.locked);
        }
        proof {
            use_type_invariant(&*self);
        }
        self.stage = if self.toc_only {
            Stage::Done
        } else {
            Stage::Chapter
        };
        self.cursor = 0;
        self.toc = kept;
        self.done = 0;
        self.total = total;
        self.locked_total = locked_total;
        self.book = book;
        if self.toc_only {
            Action::Finished
        } else {
            Action::Listed { total }
        }
    }

    fn after_page(&mut self, html: &str, current: &str) -> (a: Action)
        ensures
            (final(self)@, a@) == after_page(old(self)@, html@, current@),
    {
        match crate::scraper::scribblehub::next_toc_page_url(
            html,
            self.url.as_str(),
            Some(current),
        ) {
            Some(next) => {
                proof {
                    use_type_invariant(&*self);
                }
                self.stage = Stage::ListPage;
                self.page_url = next.clone();
                Action::Get { url: next }
            },
            None => {
                let toc = crate::scraper::scribblehub::merged_entries(&self.gathered);
                if toc.len() == 0 {
                    self.abort(ScraperError::EmptyChapterList)
                } else {
                    let index_html = self.index_html.clone();
                    self.plan(index_html.as_str(), toc)
                }
            },
        }
    }

    fn start_pages(&mut self) -> (a: Action)
        ensures
            (final(self)@, a@) == start_pages(old(self)@),
    {
        let html = self.index_html.clone();
        match crate::scraper::scribblehub::parse_toc_page(
            html.as_str(),
            "https://www.scribblehub.com",
        ) {
            Err(e) => self.abort(e),
            Ok(entries) => {
                proof {
                    use_type_invariant(&*self);
                }
                self.gathered = entries;
                let url = self.url.clone();
                self.after_page(html.as_str(), url.as_str())
            },
        }
    }

    fn receive_index(&mut self, reply: Fetched) -> (a: Action)
        ensures
            (final(self)@, a@) == on_index(old(self)@, reply@),
    {
        let html = match check_response(reply, self.url.as_str(), "story page") {
            Err(e) => {
                return self.abort(e);
            },
            Ok(h) => h,
        };
        match self.site {
            Site::RoyalRoad => {
                match crate::scraper::royalroad::parse_toc_with_locked(html.as_str()) {
                    Err(e) => self.abort(e),
                    Ok(toc) => self.plan(html.as_str(), toc),
                }
            },
            Site::ScribbleHub => {
                let id = crate::scraper::scribblehub::extract_series_id_from_url(
                    self.url.as_str(),
                );
                proof {
                    use_type_invariant(&*self);
                }
                self.index_html = html;
                match id {
                    Some(id) => {
                        self.stage = Stage::FullList;
                        Action::PostForm {
                            url: "https://www.scribblehub.com/wp-admin/admin-ajax.php".to_string(),
                            fields: list_form(id),
                        }
                    },
                    None => self.start_pages(),
                }
            },
        }
    }

    fn receive_full_list(&mut self, reply: Fetched) -> (a: Action)
        ensures
            (final(self)@, a@) == on_full_list(old(self)@, reply@),
    {
        let html = match check_response(
            reply,
            "https://www.scribblehub.com/wp-admin/admin-ajax.php",
            "TOC AJAX",
        ) {
            Err(e) => {
                return self.abort(e);
            },
            Ok(h) => h,
        };
        match crate::scraper::scribblehub::parse_toc_page(
            html.as_str(),
            "https://www.scribblehub.com",
        ) {
            Err(e) => self.abort(e),
            Ok(entries) => {
                let toc = crate::scraper::scribblehub::merged_entries(&entries);
                if toc.len() > 0 {
                    let index_html = self.index_html.clone();
                    self.plan(index_html.as_str(), toc)
                } else {
                    self.start_pages()
                }
            },
        }
    }

    fn receive_list_page(&mut self, reply: Fetched) -> (a: Action)
        ensures
            (final(self)@, a@) == on_list_page(old(self)@, reply@),
    {
        let page_url = self.page_url.clone();
        let html = match check_response(reply, page_url.as_str(), "TOC page") {
            Err(e) => {
                return self.abort(e);
            },
            Ok(h) => h,
        };
        match crate::scraper::scribblehub::parse_toc_page(
            html.as_str(),
            "https://www.scribblehub.com",
        ) {
            Err(e) => self.abort(e),
            Ok(entries) => {
                proof {
                    use_type_invariant(&*self);
                }
                let ghost before = triple_views(self.gathered@);
                let mut more = entries;
                let mut gathered: Vec<(u32, String, String)> = Vec::new();
                std::mem::swap(&mut self.gathered, &mut gathered);
                gathered.append(&mut more);
                self.gathered = gathered;
                assert(triple_views(self.gathered@) =~= before + triple_views(entries@));
                self.after_page(html.as_str(), page_url.as_str())
            },
        }
    }

    fn decide(&mut self) -> (a: Action)
        ensures
            (final(self)@, a@) == on_chapter(old(self)@),
    {
        proof {
            use_type_invariant(&*self);
        }
        if self.cursor >= self.toc.len() {
            if self.book.chapters.len() == 0 {
                return self.abort(ScraperError::NoChaptersRetrieved);
            }
            self.stage = Stage::Done;
            return Action::Finished;
        }
        let plan = plan_entry(&self.book, &self.toc[self.cursor], self.locked);
        match plan {
            EntryPlan::Present => self.pass(),
            EntryPlan::LockedOmit => self.pass(),
            EntryPlan::LockedAppend(chapter) => self.append(chapter),
            EntryPlan::LockedAbort => {
                let count = self.locked_total;
                self.abort(ScraperError::LockedChaptersNotAllowed { count })
            },
            EntryPlan::Fetch => {
                self.stage = Stage::ChapterPage;
                Action::Get { url: self.toc[self.cursor].url.clone() }
            },
        }
    }

    fn receive_chapter(&mut self, reply: Fetched) -> (a: Action)
        requires
            old(self)@.stage == Stage::ChapterPage,
        ensures
            (final(self)@, a@) == on_chapter_page(old(self)@, reply@),
    {
        proof {
            use_type_invariant(&*self);
            lemma_outcome_index(self@.site, self@.empty, self@.toc[self@.cursor as int], reply@);
        }
        let outcome = outcome_of_reply(self.site, self.empty, &self.toc[self.cursor], reply);
        match outcome {
            EntryOutcome::Append(chapter) => self.append(chapter),
            EntryOutcome::Omit => self.pass(),
            EntryOutcome::Abort(e) => self.abort(e),
        }
    }

    /// Takes the crawl one step further. A step that follows a request is
    /// given what came back for it; any other step is given nothing. The
    /// step changes the state and says what to do next, both as `stepped`
    /// states it.
    pub fn step(&mut self, reply: Option<Fetched>) -> (a: Action)
        ensures
            (final(self)@, a@) == stepped(old(self)@, reply_view(reply)),
    {
        proof {
            use_type_invariant(&*self);
        }
        match self.stage {
            Stage::Start => {
                self.stage = Stage::Index;
                Action::Get { url: self.url.clone() }
            },
            Stage::Index => self.receive_index(answer_of(reply)),
            Stage::FullList => self.receive_full_list(answer_of(reply)),
            Stage::ListPage => self.receive_list_page(answer_of(reply)),
            Stage::Chapter => self.decide(),
            Stage::ChapterPage => self.receive_chapter(answer_of(reply)),
            Stage::Done => Action::Idle,
        }
    }
}

} // verus!
