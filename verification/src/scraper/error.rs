//! The one error type of the crawler: a sum of failure kinds with structured payloads.

use crate::model::opt_text;
use crate::text::{append_str, chars_of, decimal, push_decimal, string_of};
use vstd::prelude::*;

verus! {

/// Why a crawl, or a step of it, failed.
#[derive(Debug)]
pub enum ScraperError {
    // Input and validation
    InvalidUrl { input: String, reason: String },
    UnrecognizedHost { host: String },
    /// A resume snapshot was taken from another URL than the one requested.
    ResumeMismatch { resumed: String, requested: String },
    // Transport and HTTP status
    Network { url: String, source: String },
    HttpStatus { status: u16, url: String, context: Option<String> },
    Redirect { url: String, reason: String },
    Tls { source: String },
    BodyRead { source: String },
    // Structure of the pages
    ParseStoryPage { message: String },
    ParseChapter { index: u32, url: String },
    EmptyChapter { index: u32, url: String },
    Encoding { url: String, reason: String },
    ChapterListParse { reason: String },
    EmptyChapterList,
    // Site-specific
    AccessBlocked { url: String },
    NoChaptersRetrieved,
    LockedChaptersNotAllowed { count: usize },
    /// The crawl was ended from outside before it was complete.
    Cancelled,
}

/// A `ScraperError` as mathematical values.
pub ghost enum ErrorView {
    InvalidUrl { input: Seq<char>, reason: Seq<char> },
    UnrecognizedHost { host: Seq<char> },
    ResumeMismatch { resumed: Seq<char>, requested: Seq<char> },
    Network { url: Seq<char>, source: Seq<char> },
    HttpStatus { status: u16, url: Seq<char>, context: Option<Seq<char>> },
    Redirect { url: Seq<char>, reason: Seq<char> },
    Tls { source: Seq<char> },
    BodyRead { source: Seq<char> },
    ParseStoryPage { message: Seq<char> },
    ParseChapter { index: u32, url: Seq<char> },
    EmptyChapter { index: u32, url: Seq<char> },
    Encoding { url: Seq<char>, reason: Seq<char> },
    ChapterListParse { reason: Seq<char> },
    EmptyChapterList,
    AccessBlocked { url: Seq<char> },
    NoChaptersRetrieved,
    LockedChaptersNotAllowed { count: usize },
    Cancelled,
}

impl View for ScraperError {
    type V = ErrorView;

    open spec fn view(&self) -> ErrorView {
        match *self {
            ScraperError::InvalidUrl { input, reason } => ErrorView::InvalidUrl {
                input: input@,
                reason: reason@,
            },
            ScraperError::UnrecognizedHost { host } => ErrorView::UnrecognizedHost { host: host@ },
            ScraperError::ResumeMismatch { resumed, requested } => ErrorView::ResumeMismatch {
                resumed: resumed@,
                requested: requested@,
            },
            ScraperError::Network { url, source } => ErrorView::Network {
                url: url@,
                source: source@,
            },
            ScraperError::HttpStatus { status, url, context } => ErrorView::HttpStatus {
                status,
                url: url@,
                context: opt_text(context),
            },
            ScraperError::Redirect { url, reason } => ErrorView::Redirect {
                url: url@,
                reason: reason@,
            },
            ScraperError::Tls { source } => ErrorView::Tls { source: source@ },
            ScraperError::BodyRead { source } => ErrorView::BodyRead { source: source@ },
            ScraperError::ParseStoryPage { message } => ErrorView::ParseStoryPage {
                message: message@,
            },
            ScraperError::ParseChapter { index, url } => ErrorView::ParseChapter {
                index,
                url: url@,
            },
            ScraperError::EmptyChapter { index, url } => ErrorView::EmptyChapter {
                index,
                url: url@,
            },
            ScraperError::Encoding { url, reason } => ErrorView::Encoding {
                url: url@,
                reason: reason@,
            },
            ScraperError::ChapterListParse { reason } => ErrorView::ChapterListParse {
                reason: reason@,
            },
            ScraperError::EmptyChapterList => ErrorView::EmptyChapterList,
            ScraperError::AccessBlocked { url } => ErrorView::AccessBlocked { url: url@ },
            ScraperError::NoChaptersRetrieved => ErrorView::NoChaptersRetrieved,
            ScraperError::LockedChaptersNotAllowed { count } => ErrorView::LockedChaptersNotAllowed {
                count,
            },
            ScraperError::Cancelled => ErrorView::Cancelled,
        }
    }
}

/// The message that an error renders to.
pub open spec fn message_text(e: ErrorView) -> Seq<char> {
    match e {
        ErrorView::InvalidUrl { input, reason } => "Invalid URL: "@ + input + ": "@ + reason,
        ErrorView::UnrecognizedHost { host } => "Could not detect site from URL host '"@ + host
            + "'. Use --site royalroad or --site scribblehub."@,
        ErrorView::ResumeMismatch { resumed, requested } => "Resume file is for a different URL ("@
            + resumed + "). Use the same URL as the first run ("@ + requested + ")."@,
        ErrorView::Network { url, source } => "Network error: could not reach "@ + url + ": "@
            + source,
        ErrorView::HttpStatus { status, url, context } => "HTTP "@ + decimal(status as nat)
            + " when fetching: "@ + url,
        ErrorView::Redirect { url, reason } => "Redirect error: "@ + url + ": "@ + reason,
        ErrorView::Tls { source } => "TLS error: "@ + source,
        ErrorView::BodyRead { source } => "Failed to read response body: "@ + source,
        ErrorView::ParseStoryPage { message } => "Could not parse story page: "@ + message,
        ErrorView::ParseChapter { index, url } => "Could not parse chapter "@ + decimal(
            index as nat,
        ) + ": missing content container at "@ + url + "."@,
        ErrorView::EmptyChapter { index, url } => "Chapter "@ + decimal(index as nat)
            + " has no content at "@ + url + "."@,
        ErrorView::Encoding { url, reason } => "Invalid encoding or HTML at "@ + url + ": "@
            + reason,
        ErrorView::ChapterListParse { reason } => "Could not parse chapter list on story page: "@
            + reason,
        ErrorView::EmptyChapterList =>
            "Story page has no chapters (possibly deleted or access restricted)."@,
        ErrorView::AccessBlocked { url } => "Access blocked or restricted at "@ + url
            + ". If using a browser you may need cookies or captcha; scripted access may be limited."@,
        ErrorView::NoChaptersRetrieved =>
            "No chapters could be retrieved (all locked, missing, or failed)."@,
        ErrorView::LockedChaptersNotAllowed { count } => "Fiction has "@ + decimal(count as nat)
            + " locked (premium) chapter(s). Use --locked-chapters skip or placeholder to include only free chapters or add placeholders."@,
        ErrorView::Cancelled => "The crawl was cancelled before it was complete."@,
    }
}

/// `a`, then `b`, then `c`, then `d`.
fn join4(a: &str, b: &str, c: &str, d: &str) -> (out: Vec<char>)
    ensures
        out@ == a@ + b@ + c@ + d@,
{
    let mut out = chars_of(a);
    append_str(&mut out, b);
    append_str(&mut out, c);
    append_str(&mut out, d);
    out
}

/// `a`, then the decimal numeral of `n`, then `b`.
fn around_number(a: &str, n: u64, b: &str) -> (out: Vec<char>)
    ensures
        out@ == a@ + decimal(n as nat) + b@,
{
    let mut out = chars_of(a);
    push_decimal(&mut out, n);
    append_str(&mut out, b);
    out
}

impl ScraperError {
    /// The message to show for this error.
    pub fn message(&self) -> (m: String)
        ensures
            m@ == message_text(self@),
    {
        let empty = "";
        assert(empty@ =~= Seq::<char>::empty()) by {
            reveal_strlit("");
        }
        let out: Vec<char> = match self {
            ScraperError::InvalidUrl { input, reason } => {
                let out = join4("Invalid URL: ", input.as_str(), ": ", reason.as_str());
                out
            },
            ScraperError::UnrecognizedHost { host } => {
                let out = join4(
                    "Could not detect site from URL host '",
                    host.as_str(),
                    "'. Use --site royalroad or --site scribblehub.",
                    empty,
                );
                assert(out@ =~= message_text(self@));
                out
            },
            ScraperError::ResumeMismatch { resumed, requested } => {
                let mut out = join4(
                    "Resume file is for a different URL (",
                    resumed.as_str(),
                    "). Use the same URL as the first run (",
                    requested.as_str(),
                );
                append_str(&mut out, ").");
                out
            },
            ScraperError::Network { url, source } => {
                let out = join4(
                    "Network error: could not reach ",
                    url.as_str(),
                    ": ",
                    source.as_str(),
                );
                out
            },
            ScraperError::HttpStatus { status, url, context } => {
                let mut out = around_number("HTTP ", *status as u64, " when fetching: ");
                append_str(&mut out, url.as_str());
                out
            },
            ScraperError::Redirect { url, reason } => {
                let out = join4("Redirect error: ", url.as_str(), ": ", reason.as_str());
                out
            },
            ScraperError::Tls { source } => {
                let out = join4("TLS error: ", source.as_str(), empty, empty);
                assert(out@ =~= message_text(self@));
                out
            },
            ScraperError::BodyRead { source } => {
                let out = join4("Failed to read response body: ", source.as_str(), empty, empty);
                assert(out@ =~= message_text(self@));
                out
            },
            ScraperError::ParseStoryPage { message } => {
                let out = join4("Could not parse story page: ", message.as_str(), empty, empty);
                assert(out@ =~= message_text(self@));
                out
            },
            ScraperError::ParseChapter { index, url } => {
                let mut out = around_number(
                    "Could not parse chapter ",
                    *index as u64,
                    ": missing content container at ",
                );
                append_str(&mut out, url.as_str());
                append_str(&mut out, ".");
                out
            },
            ScraperError::EmptyChapter { index, url } => {
                let mut out = around_number("Chapter ", *index as u64, " has no content at ");
                append_str(&mut out, url.as_str());
                append_str(&mut out, ".");
                out
            },
            ScraperError::Encoding { url, reason } => {
                let out = join4(
                    "Invalid encoding or HTML at ",
                    url.as_str(),
                    ": ",
                    reason.as_str(),
                );
                out
            },
            ScraperError::ChapterListParse { reason } => {
                let out = join4(
                    "Could not parse chapter list on story page: ",
                    reason.as_str(),
                    empty,
                    empty,
                );
                assert(out@ =~= message_text(self@));
                out
            },
            ScraperError::EmptyChapterList => {
                chars_of("Story page has no chapters (possibly deleted or access restricted).")
            },
            ScraperError::AccessBlocked { url } => {
                let out = join4(
                    "Access blocked or restricted at ",
                    url.as_str(),
                    ". If using a browser you may need cookies or captcha; scripted access may be limited.",
                    empty,
                );
                assert(out@ =~= message_text(self@));
                out
            },
            ScraperError::NoChaptersRetrieved => {
                chars_of("No chapters could be retrieved (all locked, missing, or failed).")
            },
            ScraperError::Cancelled => {
                chars_of("The crawl was cancelled before it was complete.")
            },
            ScraperError::LockedChaptersNotAllowed { count } => {
                around_number(
                    "Fiction has ",
                    *count as u64,
                    " locked (premium) chapter(s). Use --locked-chapters skip or placeholder to include only free chapters or add placeholders.",
                )
            },
        };
        string_of(out.as_slice())
    }
}

} // verus!
