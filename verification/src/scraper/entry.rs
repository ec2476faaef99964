//! What a crawl does with one entry of the table of contents: whether the
//! chapter is fetched at all, and what the answer to the request makes of it.

use crate::model::{has_index, Book, Chapter, ChapterView};
use crate::scraper::error::{ErrorView, ScraperError};
use crate::scraper::page::{chapter_page, page_result};
use crate::scraper::toc::{TocEntry, TocEntryView};
use crate::scraper::{EmptyChapterBehavior, LockedChapterBehavior, Site};
use crate::text::{append_str, chars_of, decimal, push_decimal, string_of};
use vstd::prelude::*;

verus! {

/// What came back for a request.
#[derive(Debug)]
pub enum Fetched {
    /// A response: its status, and its body or why the body could not be read.
    Response { status: u16, body: Result<String, String> },
    /// No response: why the request failed in transport.
    Failed { reason: String },
}

/// A `Fetched` as mathematical values.
pub ghost enum FetchedView {
    Response { status: u16, body: Result<Seq<char>, Seq<char>> },
    Failed { reason: Seq<char> },
}

impl View for Fetched {
    type V = FetchedView;

    open spec fn view(&self) -> FetchedView {
        match *self {
            Fetched::Response { status, body } => FetchedView::Response {
                status,
                body: match body {
                    Ok(b) => Ok(b@),
                    Err(e) => Err(e@),
                },
            },
            Fetched::Failed { reason } => FetchedView::Failed { reason: reason@ },
        }
    }
}

/// A status of success: 200 to 299.
pub open spec fn is_success(status: u16) -> bool {
    200 <= status <= 299
}

/// The body of an answer that is a success, or the error that the answer
/// stands for: a transport failure, a status that is no success, or a body
/// that could not be read.
pub open spec fn checked(reply: FetchedView, url: Seq<char>, context: Seq<char>) -> Result<
    Seq<char>,
    ErrorView,
> {
    match reply {
        FetchedView::Failed { reason } => Err(ErrorView::Network { url, source: reason }),
        FetchedView::Response { status, body } => if !is_success(status) {
            Err(ErrorView::HttpStatus { status, url, context: Some(context) })
        } else {
            match body {
                Ok(b) => Ok(b),
                Err(reason) => Err(ErrorView::BodyRead { source: reason }),
            }
        },
    }
}

pub open spec fn body_result(r: Result<String, ScraperError>) -> Result<Seq<char>, ErrorView> {
    match r {
        Ok(s) => Ok(s@),
        Err(e) => Err(e@),
    }
}

/// Checks the answer to a request for a page that the crawl cannot do without.
pub fn check_response(reply: Fetched, url: &str, context: &str) -> (r: Result<
    String,
    ScraperError,
>)
    ensures
        body_result(r) == checked(reply@, url@, context@),
{
    match reply {
        Fetched::Failed { reason } => Err(
            ScraperError::Network { url: url.to_string(), source: reason },
        ),
        Fetched::Response { status, body } => {
            if !(200 <= status && status <= 299) {
                Err(
                    ScraperError::HttpStatus {
                        status,
                        url: url.to_string(),
                        context: Some(context.to_string()),
                    },
                )
            } else {
                match body {
                    Ok(b) => Ok(b),
                    Err(reason) => Err(ScraperError::BodyRead { source: reason }),
                }
            }
        },
    }
}

// ---------------------------------------------------------------------------
// Before the request
// ---------------------------------------------------------------------------

/// What is done about an entry before anything is fetched.
pub ghost enum Plan {
    /// The book has a chapter of this index already: nothing is done.
    Present,
    /// The chapter is locked and left out.
    LockedOmit,
    /// The chapter is locked and a placeholder takes its place.
    LockedAppend(ChapterView),
    /// The chapter is locked and the crawl fails.
    LockedAbort,
    /// The chapter page is fetched.
    Fetch,
}

/// The placeholder for a locked chapter.
pub open spec fn locked_placeholder(e: TocEntryView) -> ChapterView {
    ChapterView {
        title: e.title + " (locked)"@,
        index: e.index,
        body: "<p>This chapter is locked (premium) and could not be retrieved.</p>"@,
    }
}

/// What is done about the entry `e` when the book holds `chapters`.
pub open spec fn entry_plan(
    chapters: Seq<ChapterView>,
    e: TocEntryView,
    locked: LockedChapterBehavior,
) -> Plan {
    if has_index(chapters, e.index) {
        Plan::Present
    } else if !e.unlocked {
        match locked {
            LockedChapterBehavior::Skip => Plan::LockedOmit,
            LockedChapterBehavior::Placeholder => Plan::LockedAppend(locked_placeholder(e)),
            LockedChapterBehavior::Fail => Plan::LockedAbort,
        }
    } else {
        Plan::Fetch
    }
}

/// What is done about an entry before anything is fetched.
pub enum EntryPlan {
    Present,
    LockedOmit,
    LockedAppend(Chapter),
    LockedAbort,
    Fetch,
}

impl View for EntryPlan {
    type V = Plan;

    open spec fn view(&self) -> Plan {
        match *self {
            EntryPlan::Present => Plan::Present,
            EntryPlan::LockedOmit => Plan::LockedOmit,
            EntryPlan::LockedAppend(c) => Plan::LockedAppend(c@),
            EntryPlan::LockedAbort => Plan::LockedAbort,
            EntryPlan::Fetch => Plan::Fetch,
        }
    }
}

/// Decides what to do about an entry before anything is fetched. A
/// chapter that the book holds already is never fetched again.
pub fn plan_entry(book: &Book, entry: &TocEntry, locked: LockedChapterBehavior) -> (p: EntryPlan)
    ensures
        p@ == entry_plan(book@.chapters, entry@, locked),
{
    if book.has_chapter(entry.index) {
        EntryPlan::Present
    } else if !entry.unlocked {
        match locked {
            LockedChapterBehavior::Skip => EntryPlan::LockedOmit,
            LockedChapterBehavior::Placeholder => {
                let mut title = chars_of(entry.title.as_str());
                append_str(&mut title, " (locked)");
                EntryPlan::LockedAppend(
                    Chapter {
                        title: string_of(title.as_slice()),
                        index: entry.index,
                        body: "<p>This chapter is locked (premium) and could not be retrieved.</p>".to_string(),
                    },
                )
            },
            LockedChapterBehavior::Fail => EntryPlan::LockedAbort,
        }
    } else {
        EntryPlan::Fetch
    }
}

// ---------------------------------------------------------------------------
// After the request
// ---------------------------------------------------------------------------

/// What the answer to the request for a chapter page makes of the entry.
pub ghost enum Outcome {
    /// The chapter is added to the book.
    Append(ChapterView),
    /// The chapter is left out; the crawl goes on.
    Omit,
    /// The crawl fails.
    Abort(ErrorView),
}

/// The placeholder for a chapter without content.
pub open spec fn vacant_placeholder(index: u32) -> ChapterView {
    ChapterView {
        title: "Chapter "@ + decimal(index as nat) + " (unable to parse)"@,
        index,
        body: "<p>This chapter could not be parsed (missing content container).</p>"@,
    }
}

/// What becomes of a chapter without content, by policy.
pub open spec fn vacant_outcome(empty: EmptyChapterBehavior, index: u32, url: Seq<char>)
    -> Outcome {
    match empty {
        EmptyChapterBehavior::Skip => Outcome::Omit,
        EmptyChapterBehavior::Placeholder => Outcome::Append(vacant_placeholder(index)),
        EmptyChapterBehavior::Fail => Outcome::Abort(ErrorView::ParseChapter { index, url }),
    }
}

/// What a chapter page, read, makes of the entry: a chapter with content
/// is added; a page without content container and a page with an empty
/// body both fall under the policy for empty chapters; any other failure
/// to read the page fails the crawl.
pub open spec fn page_outcome(
    empty: EmptyChapterBehavior,
    index: u32,
    url: Seq<char>,
    page: Result<(Seq<char>, Seq<char>), ErrorView>,
) -> Outcome {
    match page {
        Ok(p) => if p.1.len() > 0 {
            Outcome::Append(ChapterView { title: p.0, index, body: p.1 })
        } else {
            vacant_outcome(empty, index, url)
        },
        Err(ErrorView::ParseChapter { .. }) => vacant_outcome(empty, index, url),
        Err(e) => Outcome::Abort(e),
    }
}

/// What the answer to the request for the chapter page of `e` makes of
/// the entry: without a readable page of success the chapter is left out,
/// whatever the policies.
pub open spec fn reply_outcome(
    site: Site,
    empty: EmptyChapterBehavior,
    e: TocEntryView,
    reply: FetchedView,
) -> Outcome {
    match reply {
        FetchedView::Response { status, body: Ok(html) } => if is_success(status) {
            page_outcome(empty, e.index, e.url, chapter_page(site, html, e.index, e.url))
        } else {
            Outcome::Omit
        },
        _ => Outcome::Omit,
    }
}

/// What the answer to the request for a chapter page makes of the entry.
#[derive(Debug)]
pub enum EntryOutcome {
    Append(Chapter),
    Omit,
    Abort(ScraperError),
}

impl View for EntryOutcome {
    type V = Outcome;

    open spec fn view(&self) -> Outcome {
        match *self {
            EntryOutcome::Append(c) => Outcome::Append(c@),
            EntryOutcome::Omit => Outcome::Omit,
            EntryOutcome::Abort(e) => Outcome::Abort(e@),
        }
    }
}

fn outcome_of_vacant(empty: EmptyChapterBehavior, index: u32, url: &str) -> (o: EntryOutcome)
    ensures
        o@ == vacant_outcome(empty, index, url@),
{
    match empty {
        EmptyChapterBehavior::Skip => EntryOutcome::Omit,
        EmptyChapterBehavior::Placeholder => {
            let mut title = chars_of("Chapter ");
            push_decimal(&mut title, index as u64);
            append_str(&mut title, " (unable to parse)");
            EntryOutcome::Append(
                Chapter {
                    title: string_of(title.as_slice()),
                    index,
                    body: "<p>This chapter could not be parsed (missing content container).</p>".to_string(),
                },
            )
        },
        EmptyChapterBehavior::Fail => EntryOutcome::Abort(
            ScraperError::ParseChapter { index, url: url.to_string() },
        ),
    }
}

/// Decides what a chapter page, read, makes of the entry.
pub fn outcome_of_page(
    empty: EmptyChapterBehavior,
    index: u32,
    url: &str,
    page: Result<(String, String), ScraperError>,
) -> (o: EntryOutcome)
    ensures
        o@ == page_outcome(empty, index, url@, page_result(page)),
{
    match page {
        Ok((title, body)) => {
            if body.as_str().unicode_len() > 0 {
                EntryOutcome::Append(Chapter { title, index, body })
            } else {
                outcome_of_vacant(empty, index, url)
            }
        },
        Err(ScraperError::ParseChapter { .. }) => outcome_of_vacant(empty, index, url),
        Err(e) => EntryOutcome::Abort(e),
    }
}

/// Decides what the answer to the request for a chapter page makes of
/// the entry.
pub fn outcome_of_reply(
    site: Site,
    empty: EmptyChapterBehavior,
    entry: &TocEntry,
    reply: Fetched,
) -> (o: EntryOutcome)
    ensures
        o@ == reply_outcome(site, empty, entry@, reply@),
{
    match reply {
        Fetched::Response { status, body: Ok(html) } => {
            if 200 <= status && status <= 299 {
                let page = crate::scraper::page::parse_chapter_page(
                    site,
                    html.as_str(),
                    entry.index,
                    entry.url.as_str(),
                );
                outcome_of_page(empty, entry.index, entry.url.as_str(), page)
            } else {
                EntryOutcome::Omit
            }
        },
        _ => EntryOutcome::Omit,
    }
}

} // verus!
