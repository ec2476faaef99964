//! Reading command-line values: chapter ranges, sites, policies and
//! formats, and the file name that a title gives.

use crate::config::Config;
use crate::epub::{EpubError, EpubVersion};
use crate::formats::{FormatError, OutputFormat};
use crate::model::opt_text;
use crate::scraper::client::{ClientSettings, PoliteClient, PoliteClientBuilder};
use crate::scraper::error::ScraperError;
use crate::scraper::{EmptyChapterBehavior, LockedChapterBehavior, Site};
use crate::text::{
    append_chars,
    append_str,
    chars_of,
    copy_range,
    decimal,
    is_text,
    parse_u32,
    parsed_u32,
    push_decimal,
    span_until,
    string_of,
    strip_leading,
    strip_trailing,
    trim_chars,
    trimmed,
    until_char,
    without_leading,
    without_trailing,
};
use vstd::prelude::*;

verus! {

/// What `str::to_lowercase` makes of a string.
pub uninterp spec fn lowercase(s: Seq<char>) -> Seq<char>;

/// `str::to_lowercase` depends on the characters of the string alone.
pub assume_specification[ str::to_lowercase ](s: &str) -> (r: String)
    ensures
        r@ == lowercase(s@),
;

pub open spec fn text_error<T>(r: Result<T, String>) -> Result<T, Seq<char>> {
    match r {
        Ok(v) => Ok(v),
        Err(e) => Err(e@),
    }
}

/// `head`, then `value`, then `tail`.
fn framed(head: &str, value: &[char], tail: &str) -> (out: String)
    ensures
        out@ == head@ + value@ + tail@,
{
    let mut m = chars_of(head);
    append_chars(&mut m, value);
    append_str(&mut m, tail);
    string_of(m.as_slice())
}

// ---------------------------------------------------------------------------
// Chapter ranges
// ---------------------------------------------------------------------------

/// The inclusive range `from-to` that `s` names: two numbers around the
/// first dash, white space around each allowed, the first not greater than
/// the second.
pub open spec fn chapter_range(s: Seq<char>) -> Result<(u32, u32), Seq<char>> {
    let t = trimmed(s);
    let head = until_char(t, '-');
    if head.len() == t.len() {
        Err("Invalid --chapters: expected 'from-to' (e.g. 1-10), got '"@ + t + "'"@)
    } else {
        let first = trimmed(head);
        let second = trimmed(t.skip(head.len() + 1 as int));
        match parsed_u32(first) {
            None => Err(
                "Invalid --chapters: '"@ + first + "' is not a valid start chapter number"@,
            ),
            Some(from) => match parsed_u32(second) {
                None => Err(
                    "Invalid --chapters: '"@ + second + "' is not a valid end chapter number"@,
                ),
                Some(to) => if from > to {
                    Err(
                        "Invalid --chapters: start ("@ + decimal(from as nat)
                            + "). must be <= end ("@ + decimal(to as nat) + ")"@,
                    )
                } else {
                    Ok((from, to))
                },
            },
        }
    }
}

/// Reads an inclusive range of chapters, written `from-to`.
pub fn parse_chapter_range(s: &str) -> (r: Result<(u32, u32), String>)
    ensures
        text_error(r) == chapter_range(s@),
{
    let chars = chars_of(s);
    let t = trim_chars(chars.as_slice());
    let n = span_until(t.as_slice(), 0, '-');
    assert(t@.skip(0) =~= t@);
    assert(t@.subrange(0, n as int) =~= until_char(t@, '-'));
    if n == t.len() {
        return Err(
            framed("Invalid --chapters: expected 'from-to' (e.g. 1-10), got '", t.as_slice(), "'"),
        );
    }
    let head = copy_range(t.as_slice(), 0, n);
    let tail = copy_range(t.as_slice(), n + 1, t.len());
    assert(tail@ =~= t@.skip(n + 1));
    let first = trim_chars(head.as_slice());
    let second = trim_chars(tail.as_slice());
    let from = match parse_u32(first.as_slice()) {
        Some(v) => v,
        None => {
            return Err(
                framed(
                    "Invalid --chapters: '",
                    first.as_slice(),
                    "' is not a valid start chapter number",
                ),
            );
        },
    };
    let to = match parse_u32(second.as_slice()) {
        Some(v) => v,
        None => {
            return Err(
                framed(
                    "Invalid --chapters: '",
                    second.as_slice(),
                    "' is not a valid end chapter number",
                ),
            );
        },
    };
    if from > to {
        let mut m = chars_of("Invalid --chapters: start (");
        push_decimal(&mut m, from as u64);
        append_str(&mut m, "). must be <= end (");
        push_decimal(&mut m, to as u64);
        append_str(&mut m, ")");
        return Err(string_of(m.as_slice()));
    }
    Ok((from, to))
}

// ---------------------------------------------------------------------------
// Keywords
// ---------------------------------------------------------------------------

/// The site that a lower-case keyword names.
pub open spec fn site_keyword(word: Seq<char>) -> Option<Site> {
    if word == "royalroad"@ || word == "rr"@ {
        Some(Site::RoyalRoad)
    } else if word == "scribblehub"@ || word == "sh"@ {
        Some(Site::ScribbleHub)
    } else {
        None
    }
}

/// The three policies that the lower-case keywords name: skip (0),
/// placeholder (1) and fail (2).
pub open spec fn policy_keyword(word: Seq<char>) -> Option<int> {
    if word == "skip"@ {
        Some(0)
    } else if word == "placeholder"@ {
        Some(1)
    } else if word == "fail"@ {
        Some(2)
    } else {
        None
    }
}

pub open spec fn locked_policy_keyword(word: Seq<char>) -> Option<LockedChapterBehavior> {
    match policy_keyword(word) {
        Some(k) => Some(
            if k == 0 {
                LockedChapterBehavior::Skip
            } else if k == 1 {
                LockedChapterBehavior::Placeholder
            } else {
                LockedChapterBehavior::Fail
            },
        ),
        None => None,
    }
}

pub open spec fn empty_policy_keyword(word: Seq<char>) -> Option<EmptyChapterBehavior> {
    match policy_keyword(word) {
        Some(k) => Some(
            if k == 0 {
                EmptyChapterBehavior::Skip
            } else if k == 1 {
                EmptyChapterBehavior::Placeholder
            } else {
                EmptyChapterBehavior::Fail
            },
        ),
        None => None,
    }
}

/// The format that a lower-case keyword names.
pub open spec fn format_keyword(word: Seq<char>) -> Option<OutputFormat> {
    if word == "epub"@ {
        Some(OutputFormat::Epub)
    } else if word == "json"@ {
        Some(OutputFormat::Json)
    } else if word == "html"@ {
        Some(OutputFormat::Html)
    } else if word == "markdown"@ || word == "md"@ {
        Some(OutputFormat::Markdown)
    } else if word == "text"@ || word == "txt"@ {
        Some(OutputFormat::Text)
    } else {
        None
    }
}

/// The value that a keyword names, or the message that refuses `given`.
pub open spec fn keyword_result<T>(
    named: Option<T>,
    head: Seq<char>,
    given: Seq<char>,
    tail: Seq<char>,
) -> Result<T, Seq<char>> {
    match named {
        Some(v) => Ok(v),
        None => Err(head + given + tail),
    }
}

/// The site that a lower-case keyword names.
pub fn site_for_keyword(word: &str) -> (r: Option<Site>)
    ensures
        r == site_keyword(word@),
{
    let w = chars_of(word);
    if is_text(w.as_slice(), "royalroad") || is_text(w.as_slice(), "rr") {
        Some(Site::RoyalRoad)
    } else if is_text(w.as_slice(), "scribblehub") || is_text(w.as_slice(), "sh") {
        Some(Site::ScribbleHub)
    } else {
        None
    }
}

/// The policy that a lower-case keyword names.
pub fn locked_behavior_for_keyword(word: &str) -> (r: Option<LockedChapterBehavior>)
    ensures
        r == locked_policy_keyword(word@),
{
    let w = chars_of(word);
    if is_text(w.as_slice(), "skip") {
        Some(LockedChapterBehavior::Skip)
    } else if is_text(w.as_slice(), "placeholder") {
        Some(LockedChapterBehavior::Placeholder)
    } else if is_text(w.as_slice(), "fail") {
        Some(LockedChapterBehavior::Fail)
    } else {
        None
    }
}

/// The policy that a lower-case keyword names.
pub fn empty_behavior_for_keyword(word: &str) -> (r: Option<EmptyChapterBehavior>)
    ensures
        r == empty_policy_keyword(word@),
{
    let w = chars_of(word);
    if is_text(w.as_slice(), "skip") {
        Some(EmptyChapterBehavior::Skip)
    } else if is_text(w.as_slice(), "placeholder") {
        Some(EmptyChapterBehavior::Placeholder)
    } else if is_text(w.as_slice(), "fail") {
        Some(EmptyChapterBehavior::Fail)
    } else {
        None
    }
}

/// The format that a lower-case keyword names.
pub fn format_for_keyword(word: &str) -> (r: Option<OutputFormat>)
    ensures
        r == format_keyword(word@),
{
    let w = chars_of(word);
    if is_text(w.as_slice(), "epub") {
        Some(OutputFormat::Epub)
    } else if is_text(w.as_slice(), "json") {
        Some(OutputFormat::Json)
    } else if is_text(w.as_slice(), "html") {
        Some(OutputFormat::Html)
    } else if is_text(w.as_slice(), "markdown") || is_text(w.as_slice(), "md") {
        Some(OutputFormat::Markdown)
    } else if is_text(w.as_slice(), "text") || is_text(w.as_slice(), "txt") {
        Some(OutputFormat::Text)
    } else {
        None
    }
}

/// Reads a site override; upper and lower case are the same.
pub fn parse_site(s: &str) -> (r: Result<Site, String>)
    ensures
        text_error(r) == keyword_result(
            site_keyword(lowercase(s@)),
            "Invalid --site value: '"@,
            s@,
            "'. Use 'royalroad' or 'scribblehub'."@,
        ),
{
    let word = s.to_lowercase();
    match site_for_keyword(word.as_str()) {
        Some(site) => Ok(site),
        None => {
            let given = chars_of(s);
            Err(
                framed(
                    "Invalid --site value: '",
                    given.as_slice(),
                    "'. Use 'royalroad' or 'scribblehub'.",
                ),
            )
        },
    }
}

/// Reads the policy for locked chapters; upper and lower case are the same.
pub fn parse_locked_behavior(s: &str) -> (r: Result<LockedChapterBehavior, String>)
    ensures
        text_error(r) == keyword_result(
            locked_policy_keyword(lowercase(s@)),
            "Invalid --locked-chapters value: '"@,
            s@,
            "'. Use skip, placeholder, or fail."@,
        ),
{
    let word = s.to_lowercase();
    match locked_behavior_for_keyword(word.as_str()) {
        Some(b) => Ok(b),
        None => {
            let given = chars_of(s);
            Err(
                framed(
                    "Invalid --locked-chapters value: '",
                    given.as_slice(),
                    "'. Use skip, placeholder, or fail.",
                ),
            )
        },
    }
}

/// Reads the policy for empty chapters; upper and lower case are the same.
pub fn parse_empty_chapter_behavior(s: &str) -> (r: Result<EmptyChapterBehavior, String>)
    ensures
        text_error(r) == keyword_result(
            empty_policy_keyword(lowercase(s@)),
            "Invalid --empty-chapters value: '"@,
            s@,
            "'. Use skip, placeholder, or fail."@,
        ),
{
    let word = s.to_lowercase();
    match empty_behavior_for_keyword(word.as_str()) {
        Some(b) => Ok(b),
        None => {
            let given = chars_of(s);
            Err(
                framed(
                    "Invalid --empty-chapters value: '",
                    given.as_slice(),
                    "'. Use skip, placeholder, or fail.",
                ),
            )
        },
    }
}

/// Reads an output format; upper and lower case are the same.
pub fn parse_format(s: &str) -> (r: Result<OutputFormat, String>)
    ensures
        text_error(r) == keyword_result(
            format_keyword(lowercase(s@)),
            "Invalid --format value: '"@,
            s@,
            "'. Use epub, json, html, markdown, or text."@,
        ),
{
    let word = s.to_lowercase();
    match format_for_keyword(word.as_str()) {
        Some(f) => Ok(f),
        None => {
            let given = chars_of(s);
            Err(
                framed(
                    "Invalid --format value: '",
                    given.as_slice(),
                    "'. Use epub, json, html, markdown, or text.",
                ),
            )
        },
    }
}

/// The file extension of a format.
pub open spec fn extension(format: OutputFormat) -> Seq<char> {
    match format {
        OutputFormat::Epub => "epub"@,
        OutputFormat::Json => "json"@,
        OutputFormat::Html => "html"@,
        OutputFormat::Markdown => "md"@,
        OutputFormat::Text => "txt"@,
    }
}

/// The file extension of a format.
pub fn extension_for_format(format: OutputFormat) -> (ext: &'static str)
    ensures
        ext@ == extension(format),
{
    match format {
        OutputFormat::Epub => "epub",
        OutputFormat::Json => "json",
        OutputFormat::Html => "html",
        OutputFormat::Markdown => "md",
        OutputFormat::Text => "txt",
    }
}

// ---------------------------------------------------------------------------
// File names
// ---------------------------------------------------------------------------

pub open spec fn is_ascii_alphanumeric(c: char) -> bool {
    ('0' <= c <= '9') || ('a' <= c <= 'z') || ('A' <= c <= 'Z')
}

/// What a character of a title becomes in a file name: letters in lower
/// case, digits as they are, a dash for anything else.
pub open spec fn slug_char(c: char) -> char {
    if 'A' <= c <= 'Z' {
        ((c as u8) + 32) as char
    } else if is_ascii_alphanumeric(c) {
        c
    } else {
        '-'
    }
}

/// The characters of `s` as they stand in a file name, each run of dashes
/// cut to one dash.
pub open spec fn slug(s: Seq<char>) -> Seq<char>
    decreases s.len(),
{
    if s.len() == 0 {
        Seq::<char>::empty()
    } else {
        let front = slug(s.drop_last());
        if slug_char(s.last()) == '-' && front.len() > 0 && front.last() == '-' {
            front
        } else {
            front.push(slug_char(s.last()))
        }
    }
}

/// The file name that a title gives: its slug without dashes at either
/// end, `book` where nothing is left.
pub open spec fn sanitized(title: Seq<char>) -> Seq<char> {
    let t = without_trailing(without_leading(slug(title), '-'), '-');
    if t.len() == 0 {
        "book"@
    } else {
        t
    }
}

fn slug_char_of(c: char) -> (r: char)
    ensures
        r == slug_char(c),
{
    let n: u32 = c as u32;
    if 0x41 <= n && n <= 0x5A {
        ((n + 32) as u8) as char
    } else if (0x30 <= n && n <= 0x39) || (0x61 <= n && n <= 0x7A) {
        c
    } else {
        '-'
    }
}

/// Makes a safe file name of a book title.
pub fn sanitize_title(title: &str) -> (out: String)
    ensures
        out@ == sanitized(title@),
{
    let chars = chars_of(title);
    let mut s: Vec<char> = Vec::new();
    let mut i: usize = 0;
    assert(s@ =~= slug(chars@.take(0)));
    while i < chars.len()
        invariant
            i <= chars.len(),
            s@ == slug(chars@.take(i as int)),
        decreases chars.len() - i,
    {
        assert(chars@.take(i + 1).drop_last() =~= chars@.take(i as int));
        let c = slug_char_of(chars[i]);
        let n = s.len();
        if !(c == '-' && n > 0 && s[n - 1] == '-') {
            s.push(c);
        }
        i += 1;
    }
    assert(chars@.take(chars.len() as int) =~= chars@);
    let a = strip_leading(s.as_slice(), '-');
    let b = strip_trailing(a.as_slice(), '-');
    if b.len() == 0 {
        "book".to_string()
    } else {
        string_of(b.as_slice())
    }
}

/// The file name that a book gets where no output path is given: the
/// sanitized title, a dot, and the extension of the format.
pub open spec fn file_name(title: Seq<char>, format: OutputFormat) -> Seq<char> {
    sanitized(title) + "."@ + extension(format)
}

/// The file name for a book where no output path is given.
pub fn default_file_name(title: &str, format: OutputFormat) -> (name: String)
    ensures
        name@ == file_name(title@, format),
{
    let base = sanitize_title(title);
    let mut out = chars_of(base.as_str());
    append_str(&mut out, ".");
    append_str(&mut out, extension_for_format(format));
    string_of(out.as_slice())
}

// ---------------------------------------------------------------------------
// Arguments and settings
// ---------------------------------------------------------------------------

/// The arguments of the command line.
#[derive(Debug)]
pub struct Args {
    /// URL of the story or series.
    pub url: String,
    /// Output path.
    pub output: Option<String>,
    pub format: OutputFormat,
    /// The site, where it is not to be told from the URL.
    pub site: Option<Site>,
    /// Write EPUB 2 instead of EPUB 3.
    pub epub_2: bool,
    pub quiet: bool,
    pub verbose: bool,
    /// Put an NCX into an EPUB 3.
    pub ncx: bool,
    /// Inclusive range of chapters to fetch.
    pub chapters: Option<(u32, u32)>,
    /// Path of the file to resume from and to save progress to.
    pub resume: Option<String>,
    pub locked_chapters: LockedChapterBehavior,
    pub empty_chapters: Option<EmptyChapterBehavior>,
    pub user_agent: Option<String>,
    /// Pause between two requests, in seconds.
    pub delay: Option<u64>,
    /// Time allowed for one request, in seconds.
    pub timeout: Option<u64>,
    /// List the chapters only; write nothing.
    pub dry_run: bool,
    /// Run epubcheck on the EPUB written.
    pub validate: bool,
}

/// What a run works with, once arguments, configuration and defaults
/// are put together.
#[derive(Debug)]
pub struct Settings {
    pub output_dir: String,
    pub user_agent: Option<String>,
    pub delay_secs: u64,
    pub timeout_secs: u64,
    pub retry_count: u32,
    pub retry_backoff_secs: Vec<u64>,
    pub empty_chapters: EmptyChapterBehavior,
    pub include_toc_page: bool,
    pub epub_version: EpubVersion,
}

/// A `Settings` as mathematical values.
pub ghost struct SettingsView {
    pub output_dir: Seq<char>,
    pub user_agent: Option<Seq<char>>,
    pub delay_secs: u64,
    pub timeout_secs: u64,
    pub retry_count: u32,
    pub retry_backoff_secs: Seq<u64>,
    pub empty_chapters: EmptyChapterBehavior,
    pub include_toc_page: bool,
    pub epub_version: EpubVersion,
}

impl View for Settings {
    type V = SettingsView;

    open spec fn view(&self) -> SettingsView {
        SettingsView {
            output_dir: self.output_dir@,
            user_agent: opt_text(self.user_agent),
            delay_secs: self.delay_secs,
            timeout_secs: self.timeout_secs,
            retry_count: self.retry_count,
            retry_backoff_secs: self.retry_backoff_secs@,
            empty_chapters: self.empty_chapters,
            include_toc_page: self.include_toc_page,
            epub_version: self.epub_version,
        }
    }
}

/// The first of two optional values that is there.
pub open spec fn first_some<T>(a: Option<T>, b: Option<T>) -> Option<T> {
    match a {
        Some(x) => Some(x),
        None => b,
    }
}

pub open spec fn or_default<T>(a: Option<T>, d: T) -> T {
    match a {
        Some(x) => x,
        None => d,
    }
}

/// The value that the configuration sets, if there is a configuration.
pub open spec fn configured<T>(config: Option<Config>, get: spec_fn(Config) -> Option<T>)
    -> Option<T> {
    match config {
        Some(c) => get(c),
        None => None,
    }
}

pub open spec fn waits_view(w: Option<Vec<u64>>) -> Option<Seq<u64>> {
    match w {
        Some(v) => Some(v@),
        None => None,
    }
}

/// The policy for empty chapters that a configuration names, if it names one.
pub open spec fn configured_empty_policy(config: Option<Config>) -> Option<EmptyChapterBehavior> {
    match configured(config, |c: Config| opt_text(c.empty_chapters)) {
        Some(word) => empty_policy_keyword(lowercase(word)),
        None => None,
    }
}

/// The settings of a run: an argument wins over the configuration, the
/// configuration over the default. The defaults are: the current
/// directory, a pause of 2 seconds, 30 seconds for a request, 3 attempts
/// with waits of 1, 2 and 4 seconds, empty chapters left out, a page of
/// contents in an EPUB, EPUB 3. At least one attempt is made.
pub open spec fn resolved(args: Args, config: Option<Config>) -> SettingsView {
    let attempts = or_default(configured(config, |c: Config| c.retry_count), 3u32);
    SettingsView {
        output_dir: or_default(configured(config, |c: Config| opt_text(c.output_dir)), "."@),
        user_agent: first_some(
            opt_text(args.user_agent),
            configured(config, |c: Config| opt_text(c.user_agent)),
        ),
        delay_secs: or_default(
            first_some(args.delay, configured(config, |c: Config| c.request_delay_secs)),
            2u64,
        ),
        timeout_secs: or_default(
            first_some(args.timeout, configured(config, |c: Config| c.timeout_secs)),
            30u64,
        ),
        retry_count: if attempts < 1 {
            1
        } else {
            attempts
        },
        retry_backoff_secs: or_default(
            configured(config, |c: Config| waits_view(c.retry_backoff_secs)),
            seq![1u64, 2u64, 4u64],
        ),
        empty_chapters: or_default(
            first_some(args.empty_chapters, configured_empty_policy(config)),
            EmptyChapterBehavior::Skip,
        ),
        include_toc_page: or_default(configured(config, |c: Config| c.toc_page), true),
        epub_version: if args.epub_2 {
            EpubVersion::Epub2
        } else {
            EpubVersion::Epub3
        },
    }
}

pub open spec fn config_option(config: Option<&Config>) -> Option<Config> {
    match config {
        Some(c) => Some(*c),
        None => None,
    }
}

fn copy_waits(w: &Vec<u64>) -> (out: Vec<u64>)
    ensures
        out@ == w@,
{
    let mut out: Vec<u64> = Vec::new();
    let mut i: usize = 0;
    while i < w.len()
        invariant
            i <= w.len(),
            out@ == w@.take(i as int),
        decreases w.len() - i,
    {
        out.push(w[i]);
        assert(out@ =~= w@.take(i + 1));
        i += 1;
    }
    assert(w@.take(w.len() as int) =~= w@);
    out
}

/// Puts arguments, configuration and defaults together.
pub fn settings(args: &Args, config: Option<&Config>) -> (s: Settings)
    ensures
        s@ == resolved(*args, config_option(config)),
{
    let output_dir = match config {
        Some(c) => match &c.output_dir {
            Some(d) => d.clone(),
            None => ".".to_string(),
        },
        None => ".".to_string(),
    };
    let user_agent = match &args.user_agent {
        Some(ua) => Some(ua.clone()),
        None => match config {
            Some(c) => crate::model::copy_opt_text(&c.user_agent),
            None => None,
        },
    };
    let delay_secs = match args.delay {
        Some(d) => d,
        None => match config {
            Some(c) => match c.request_delay_secs {
                Some(d) => d,
                None => 2,
            },
            None => 2,
        },
    };
    let timeout_secs = match args.timeout {
        Some(t) => t,
        None => match config {
            Some(c) => match c.timeout_secs {
                Some(t) => t,
                None => 30,
            },
            None => 30,
        },
    };
    let attempts: u32 = match config {
        Some(c) => match c.retry_count {
            Some(n) => n,
            None => 3,
        },
        None => 3,
    };
    let retry_backoff_secs = match config {
        Some(c) => match &c.retry_backoff_secs {
            Some(w) => copy_waits(w),
            None => default_waits(),
        },
        None => default_waits(),
    };
    let empty_chapters = match args.empty_chapters {
        Some(e) => e,
        None => {
            let named = match config {
                Some(c) => match &c.empty_chapters {
                    Some(word) => {
                        let lowered = word.as_str().to_lowercase();
                        empty_behavior_for_keyword(lowered.as_str())
                    },
                    None => None,
                },
                None => None,
            };
            match named {
                Some(e) => e,
                None => EmptyChapterBehavior::Skip,
            }
        },
    };
    let include_toc_page = match config {
        Some(c) => match c.toc_page {
            Some(t) => t,
            None => true,
        },
        None => true,
    };
    Settings {
        output_dir,
        user_agent,
        delay_secs,
        timeout_secs,
        retry_count: if attempts < 1 {
            1
        } else {
            attempts
        },
        retry_backoff_secs,
        empty_chapters,
        include_toc_page,
        epub_version: if args.epub_2 {
            EpubVersion::Epub2
        } else {
            EpubVersion::Epub3
        },
    }
}

fn default_waits() -> (w: Vec<u64>)
    ensures
        w@ == seq![1u64, 2u64, 4u64],
{
    let mut w: Vec<u64> = Vec::new();
    w.push(1);
    w.push(2);
    w.push(4);
    assert(w@ =~= seq![1u64, 2u64, 4u64]);
    w
}

/// The settings of the client of a run.
pub open spec fn client_settings(s: SettingsView) -> ClientSettings {
    ClientSettings {
        user_agent: s.user_agent,
        delay_secs: s.delay_secs,
        timeout_secs: s.timeout_secs,
        retry_count: if s.retry_count < 1 {
            1
        } else {
            s.retry_count
        },
        backoff_secs: s.retry_backoff_secs,
    }
}

/// The builder of the client that a run uses.
pub fn client_builder(s: &Settings) -> (b: PoliteClientBuilder)
    ensures
        b@ == client_settings(s@),
{
    let b = PoliteClient::builder().delay_secs(s.delay_secs).timeout_secs(
        s.timeout_secs,
    ).retry_count(s.retry_count).retry_backoff_secs(copy_waits(&s.retry_backoff_secs));
    match &s.user_agent {
        Some(ua) => b.user_agent(ua.clone()),
        None => b,
    }
}

/// Why a run failed.
#[derive(Debug)]
pub enum CliRunError {
    /// The input cannot be used.
    InvalidInput(String),
    /// The crawl failed.
    Scraper(ScraperError),
    /// The EPUB could not be written.
    Epub(EpubError),
    /// The output file could not be written.
    Format(FormatError),
    /// The file written did not pass validation.
    Validation(String),
}

/// The exit code of a run that failed: 1 for input that cannot be used,
/// 2 for a crawl that failed, 3 for output that could not be written or
/// did not pass validation.
pub open spec fn exit_code_of(e: CliRunError) -> i32 {
    match e {
        CliRunError::InvalidInput(_) => 1,
        CliRunError::Scraper(_) => 2,
        CliRunError::Epub(_) => 3,
        CliRunError::Format(_) => 3,
        CliRunError::Validation(_) => 3,
    }
}

impl CliRunError {
    /// The exit code that the run ends with.
    pub fn exit_code(&self) -> (code: i32)
        ensures
            code == exit_code_of(*self),
    {
        match self {
            CliRunError::InvalidInput(_) => 1,
            CliRunError::Scraper(_) => 2,
            CliRunError::Epub(_) | CliRunError::Format(_) | CliRunError::Validation(_) => 3,
        }
    }
}

/// The message for a URL that names no site, given why it does not parse.
pub open spec fn invalid_url_text(input: Seq<char>, reason: Seq<char>) -> Seq<char> {
    "Expected a story URL. Example: https://www.royalroad.com/fiction/12345/... Invalid: "@ + input
        + ": "@ + reason
}

/// The message for a host that belongs to no supported site.
pub open spec fn unsupported_site_text(host: Seq<char>) -> Seq<char> {
    "Unsupported site: "@ + host
        + ". Use --site royalroad or scribblehub to override, or provide a Royal Road / Scribble Hub URL."@
}

/// The message for a URL that names no site.
pub fn invalid_url_message(input: &str, reason: &str) -> (m: String)
    ensures
        m@ == invalid_url_text(input@, reason@),
{
    let mut out = chars_of(
        "Expected a story URL. Example: https://www.royalroad.com/fiction/12345/... Invalid: ",
    );
    append_str(&mut out, input);
    append_str(&mut out, ": ");
    append_str(&mut out, reason);
    string_of(out.as_slice())
}

/// The message for a host that belongs to no supported site.
pub fn unsupported_site_message(host: &str) -> (m: String)
    ensures
        m@ == unsupported_site_text(host@),
{
    let mut out = chars_of("Unsupported site: ");
    append_str(&mut out, host);
    append_str(
        &mut out,
        ". Use --site royalroad or scribblehub to override, or provide a Royal Road / Scribble Hub URL.",
    );
    string_of(out.as_slice())
}

} // verus!
