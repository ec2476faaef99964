//! What the single-file writers (HTML, Markdown, plain text) decide before
//! they write: whether a book can be written, and how text is escaped or
//! freed of markup.

use crate::model::{Book, BookView, ChapterView};
use crate::scraper::dom::{dom_fragment_text, fragment_text};
use crate::text::{
    append_chars, append_str, chars_of, decimal, escaped, is_blank, occurs_at_index, push_decimal,
    push_escaped, span_until, starts_with, string_of, trim_chars, trimmed, until_char,
};
use vstd::prelude::*;

verus! {

/// The format of the output file.
#[derive(Debug, Clone, Copy, PartialEq, Eq, Structural)]
pub enum OutputFormat {
    Epub,
    Json,
    Html,
    Markdown,
    Text,
}

/// Why a book could not be written in one of the single-file formats.
#[derive(Debug)]
pub enum FormatError {
    EmptyTitle,
    EmptyAuthor,
    /// The file at `path` could not be created.
    Io { path: String, source: String },
    /// Writing to the file failed.
    Write(String),
}

/// What stands in the way of writing a book: a blank title, else a blank author.
pub open spec fn book_fault(title: Seq<char>, author: Seq<char>) -> Option<FormatError> {
    if trimmed(title).len() == 0 {
        Some(FormatError::EmptyTitle)
    } else if trimmed(author).len() == 0 {
        Some(FormatError::EmptyAuthor)
    } else {
        None
    }
}

/// Whether `s` is empty or white space only.
pub fn is_blank_text(s: &str) -> (r: bool)
    ensures
        r == (trimmed(s@).len() == 0),
{
    let chars = chars_of(s);
    is_blank(chars.as_slice())
}

/// Checks that a book has a title and an author.
pub fn validate_book(book: &Book) -> (r: Result<(), FormatError>)
    ensures
        match r {
            Ok(_) => book_fault(book@.title, book@.author) is None,
            Err(e) => book_fault(book@.title, book@.author) == Some(e),
        },
{
    if is_blank_text(book.title.as_str()) {
        return Err(FormatError::EmptyTitle);
    }
    if is_blank_text(book.author.as_str()) {
        return Err(FormatError::EmptyAuthor);
    }
    Ok(())
}

/// Escapes `&`, `<`, `>` and `"` for use in markup and attribute values.
pub fn html_escape_attr(s: &str) -> (out: String)
    ensures
        out@ == escaped(s@),
{
    let chars = chars_of(s);
    let mut out: Vec<char> = Vec::new();
    push_escaped(&mut out, chars.as_slice());
    string_of(out.as_slice())
}

/// The plain text of a chapter body, given the text that its markup
/// holds: that text trimmed, or the body itself trimmed where the markup
/// holds no text.
pub open spec fn plain_body(body: Seq<char>, text: Seq<char>) -> Seq<char> {
    if trimmed(text).len() == 0 {
        trimmed(body)
    } else {
        trimmed(text)
    }
}

/// The plain text of a chapter body from the text that its markup holds.
pub fn plain_text_or_body(body: &str, text: &str) -> (out: String)
    ensures
        out@ == plain_body(body@, text@),
{
    let t = chars_of(text);
    let trimmed_text = trim_chars(t.as_slice());
    if trimmed_text.len() == 0 {
        let b = chars_of(body);
        let trimmed_body = trim_chars(b.as_slice());
        string_of(trimmed_body.as_slice())
    } else {
        string_of(trimmed_text.as_slice())
    }
}

/// Strips the markup from a chapter body.
pub fn body_to_plain_text(body: &str) -> (out: String)
    ensures
        out@ == plain_body(body@, dom_fragment_text(body@)),
{
    let text = fragment_text(body);
    plain_text_or_body(body, text.as_str())
}

// ---------------------------------------------------------------------------
// The book as one HTML file
// ---------------------------------------------------------------------------

pub const HTML_HEAD: &'static str =
    "<!DOCTYPE html>\n<html lang=\"en\">\n<head>\n  <meta charset=\"UTF-8\"/>\n  <title>";

pub const HTML_HEADER: &'static str = "</title>\n</head>\n<body>\n  <header>\n    <h1>";

pub const HTML_AUTHOR: &'static str = "</h1>\n    <p class=\"author\">By ";

pub const HTML_AUTHOR_CLOSE: &'static str = "</p>\n";

pub const HTML_DESCRIPTION: &'static str = "    <p class=\"description\">";

pub const HTML_HEADER_CLOSE: &'static str = "  </header>\n";

pub const HTML_CHAPTER: &'static str = "  <section class=\"chapter\">\n    <h2>";

pub const HTML_CHAPTER_BODY: &'static str = "</h2>\n    <div class=\"chapter-body\">\n";

pub const HTML_CHAPTER_CLOSE: &'static str = "\n    </div>\n  </section>\n";

pub const HTML_TAIL: &'static str = "</body>\n</html>\n";

/// One chapter of the HTML file: the title escaped, the body as it is.
pub open spec fn html_chapter(c: ChapterView) -> Seq<char> {
    HTML_CHAPTER@ + escaped(c.title) + HTML_CHAPTER_BODY@ + c.body + HTML_CHAPTER_CLOSE@
}

pub open spec fn html_chapters(chapters: Seq<ChapterView>) -> Seq<char>
    decreases chapters.len(),
{
    if chapters.len() == 0 {
        Seq::<char>::empty()
    } else {
        html_chapters(chapters.drop_last()) + html_chapter(chapters.last())
    }
}

/// The description paragraph; nothing for a book without description.
pub open spec fn html_description(description: Option<Seq<char>>) -> Seq<char> {
    match description {
        Some(d) => if escaped(d).len() > 0 {
            HTML_DESCRIPTION@ + escaped(d) + HTML_AUTHOR_CLOSE@
        } else {
            Seq::<char>::empty()
        },
        None => Seq::<char>::empty(),
    }
}

/// The book as one HTML file.
pub open spec fn html_text(book: BookView) -> Seq<char> {
    HTML_HEAD@ + escaped(book.title) + HTML_HEADER@ + escaped(book.title) + HTML_AUTHOR@ + escaped(
        book.author,
    ) + HTML_AUTHOR_CLOSE@ + html_description(book.description) + HTML_HEADER_CLOSE@
        + html_chapters(book.chapters) + HTML_TAIL@
}

/// What a writer gives for a book: the text, or what stands in the way.
pub open spec fn rendered(book: BookView, text: Seq<char>) -> Result<Seq<char>, FormatError> {
    match book_fault(book.title, book.author) {
        Some(e) => Err(e),
        None => Ok(text),
    }
}

pub open spec fn text_result(r: Result<String, FormatError>) -> Result<Seq<char>, FormatError> {
    match r {
        Ok(s) => Ok(s@),
        Err(e) => Err(e),
    }
}

fn put_escaped(out: &mut Vec<char>, s: &str)
    ensures
        final(out)@ == old(out)@ + escaped(s@),
{
    let chars = chars_of(s);
    push_escaped(out, chars.as_slice());
}

/// Writes the book as one HTML file: title, author, description, and
/// every chapter under its heading.
pub fn render_html(book: &Book) -> (r: Result<String, FormatError>)
    ensures
        text_result(r) == rendered(book@, html_text(book@)),
{
    validate_book(book)?;
    let mut out = chars_of(HTML_HEAD);
    put_escaped(&mut out, book.title.as_str());
    append_str(&mut out, HTML_HEADER);
    put_escaped(&mut out, book.title.as_str());
    append_str(&mut out, HTML_AUTHOR);
    put_escaped(&mut out, book.author.as_str());
    append_str(&mut out, HTML_AUTHOR_CLOSE);
    let ghost before_description = out@;
    if let Some(d) = &book.description {
        let e = html_escape_attr(d.as_str());
        if e.as_str().unicode_len() > 0 {
            append_str(&mut out, HTML_DESCRIPTION);
            append_str(&mut out, e.as_str());
            append_str(&mut out, HTML_AUTHOR_CLOSE);
        }
    }
    assert(out@ =~= before_description + html_description(book@.description));
    append_str(&mut out, HTML_HEADER_CLOSE);
    let ghost front = out@;
    let ghost all = book@.chapters;
    assert(all.take(0) =~= Seq::<ChapterView>::empty());
    assert(front + html_chapters(all.take(0)) =~= front);
    let mut i: usize = 0;
    while i < book.chapters.len()
        invariant
            i <= book.chapters.len(),
            all == book@.chapters,
            out@ == front + html_chapters(all.take(i as int)),
        decreases book.chapters.len() - i,
    {
        let ghost before = out@;
        assert(all.take(i + 1).drop_last() =~= all.take(i as int));
        assert(all.take(i + 1).last() == all[i as int]);
        append_str(&mut out, HTML_CHAPTER);
        put_escaped(&mut out, book.chapters[i].title.as_str());
        append_str(&mut out, HTML_CHAPTER_BODY);
        append_str(&mut out, book.chapters[i].body.as_str());
        append_str(&mut out, HTML_CHAPTER_CLOSE);
        assert(out@ =~= before + html_chapter(all[i as int]));
        assert(out@ =~= front + html_chapters(all.take(i + 1)));
        i += 1;
    }
    assert(all.take(book.chapters.len() as int) =~= all);
    append_str(&mut out, HTML_TAIL);
    assert(out@ =~= html_text(book@));
    Ok(string_of(out.as_slice()))
}

// ---------------------------------------------------------------------------
// The book as plain text and as Markdown
// ---------------------------------------------------------------------------

pub open spec fn paragraph_open() -> Seq<char> {
    seq!['<', 'p', '>']
}

pub open spec fn paragraph_close() -> Seq<char> {
    seq!['<', '/', 'p', '>']
}

/// Whether `html` is made of paragraphs only: `<p>`, text without `<`,
/// `</p>`, any number of times and nothing else. The bodies that are read
/// from chapter pages are of this form.
pub open spec fn paragraphs_only(html: Seq<char>) -> bool
    decreases html.len(),
{
    if html.len() == 0 {
        true
    } else if !starts_with(html, paragraph_open()) {
        false
    } else {
        let text = until_char(html.skip(3), '<');
        if 3 + text.len() <= html.len() && starts_with(
            html.skip(3 + text.len() as int),
            paragraph_close(),
        ) {
            paragraphs_only(html.skip(3 + text.len() as int).skip(4))
        } else {
            false
        }
    }
}

/// Whether a chapter body is made of paragraphs only.
pub fn is_paragraphs_only(html: &str) -> (r: bool)
    ensures
        r == paragraphs_only(html@),
{
    let v = chars_of(html);
    let mut open: Vec<char> = Vec::new();
    open.push('<');
    open.push('p');
    open.push('>');
    let mut close: Vec<char> = Vec::new();
    close.push('<');
    close.push('/');
    close.push('p');
    close.push('>');
    assert(open@ =~= paragraph_open());
    assert(close@ =~= paragraph_close());
    let mut i: usize = 0;
    assert(v@.skip(0) =~= v@);
    loop
        invariant
            i <= v.len(),
            v@ == html@,
            open@ == paragraph_open(),
            close@ == paragraph_close(),
            paragraphs_only(v@) == paragraphs_only(v@.skip(i as int)),
        decreases v.len() - i,
    {
        let ghost rest = v@.skip(i as int);
        if i == v.len() {
            return true;
        }
        proof {
            if i + 3 <= v.len() {
                assert(rest.subrange(0, 3) =~= v@.subrange(i as int, i + 3));
            }
        }
        if !occurs_at_index(v.as_slice(), open.as_slice(), i) {
            return false;
        }
        let from = i + 3;
        assert(rest.skip(3) =~= v@.skip(from as int));
        let n = span_until(v.as_slice(), from, '<');
        let at = from + n;
        let ghost tail = rest.skip(3 + n as int);
        assert(tail =~= v@.skip(at as int));
        proof {
            if at + 4 <= v.len() {
                assert(tail.subrange(0, 4) =~= v@.subrange(at as int, at + 4));
            }
        }
        if !occurs_at_index(v.as_slice(), close.as_slice(), at) {
            return false;
        }
        assert(tail.skip(4) =~= v@.skip(at + 4));
        i = at + 4;
    }
}

/// No character of `s` is `c`.
pub open spec fn free_of(s: Seq<char>, c: char) -> bool {
    forall|i: int| 0 <= i < s.len() ==> s[i] != c
}

/// Escaped text holds no `<`.
pub proof fn lemma_escaped_has_no_tag(s: Seq<char>)
    ensures
        free_of(escaped(s), '<'),
    decreases s.len(),
{
    if s.len() > 0 {
        lemma_escaped_has_no_tag(s.drop_last());
        let front = escaped(s.drop_last());
        let last = crate::text::escaped_char(s.last());
        assert forall|i: int| 0 <= i < escaped(s).len() implies escaped(s)[i] != '<' by {
            if i < front.len() {
                assert(escaped(s)[i] == front[i]);
            } else {
                assert(escaped(s)[i] == last[i - front.len()]);
            }
        }
    }
}

/// Text without `c`, followed by something that starts with `c`, ends
/// where that starts.
proof fn lemma_until_first(text: Seq<char>, rest: Seq<char>, c: char)
    requires
        free_of(text, c),
        rest.len() > 0,
        rest[0] == c,
    ensures
        until_char(text + rest, c) == text,
    decreases text.len(),
{
    if text.len() == 0 {
        assert(text + rest =~= rest);
        assert(until_char(rest, c) =~= text);
    } else {
        let whole = text + rest;
        assert(whole[0] == text[0]);
        assert(whole.drop_first() =~= text.drop_first() + rest);
        assert forall|i: int| 0 <= i < text.drop_first().len() implies text.drop_first()[i]
            != c by {
            assert(text.drop_first()[i] == text[i + 1]);
        }
        lemma_until_first(text.drop_first(), rest, c);
        assert(seq![text[0]] + text.drop_first() =~= text);
    }
}

/// One paragraph in front does not change whether markup is of paragraphs only.
proof fn lemma_one_paragraph(text: Seq<char>, rest: Seq<char>)
    requires
        free_of(text, '<'),
    ensures
        paragraphs_only(paragraph_open() + text + paragraph_close() + rest) == paragraphs_only(
            rest,
        ),
{
    let html = paragraph_open() + text + paragraph_close() + rest;
    assert(html.subrange(0, 3) =~= paragraph_open());
    assert(html.skip(3) =~= text + (paragraph_close() + rest));
    lemma_until_first(text, paragraph_close() + rest, '<');
    let tail = html.skip(3 + text.len() as int);
    assert(tail =~= paragraph_close() + rest);
    assert(tail.subrange(0, 4) =~= paragraph_close());
    assert(tail.skip(4) =~= rest);
}

/// Markup of paragraphs only, followed by such markup, is such markup.
pub proof fn lemma_paragraphs_joined(a: Seq<char>, b: Seq<char>)
    requires
        paragraphs_only(a),
        paragraphs_only(b),
    ensures
        paragraphs_only(a + b),
    decreases a.len(),
{
    if a.len() == 0 {
        assert(a + b =~= b);
    } else {
        let text = until_char(a.skip(3), '<');
        let tail = a.skip(3 + text.len() as int);
        let rest = tail.skip(4);
        crate::text::lemma_until_char(a.skip(3), '<');
        assert(a.subrange(0, 3) == paragraph_open());
        assert(tail.subrange(0, 4) == paragraph_close());
        assert(a =~= paragraph_open() + text + paragraph_close() + rest) by {
            assert(a =~= a.subrange(0, 3) + a.skip(3));
            assert(a.skip(3) =~= text + tail);
            assert(tail =~= tail.subrange(0, 4) + rest);
        }
        assert forall|i: int| 0 <= i < text.len() implies text[i] != '<' by {
            assert(text[i] == a.skip(3)[i]);
        }
        lemma_paragraphs_joined(rest, b);
        lemma_one_paragraph(text, rest + b);
        assert(a + b =~= paragraph_open() + text + paragraph_close() + (rest + b));
    }
}

/// The tags of a paragraph, character by character.
proof fn lemma_tags()
    ensures
        "<p>"@ == paragraph_open(),
        "</p>"@ == paragraph_close(),
{
    reveal_strlit("<p>");
    reveal_strlit("</p>");
    assert("<p>"@ =~= paragraph_open());
    assert("</p>"@ =~= paragraph_close());
}

/// One paragraph of a chapter body is markup of paragraphs only.
proof fn lemma_paragraph(text: Seq<char>)
    ensures
        paragraphs_only(crate::scraper::page::paragraph(text)),
{
    let inner = escaped(trimmed(text));
    let none = Seq::<char>::empty();
    lemma_escaped_has_no_tag(trimmed(text));
    lemma_one_paragraph(inner, none);
    lemma_tags();
    assert(crate::scraper::page::paragraph(text) =~= paragraph_open() + inner + paragraph_close()
        + none);
}

/// The body that is read from a chapter page is made of paragraphs only,
/// so it is one that the converter to Markdown is given.
pub proof fn law_chapter_bodies_are_paragraphs(
    paragraphs: Seq<(Seq<char>, Option<Seq<char>>, Option<Seq<char>>)>,
)
    ensures
        paragraphs_only(crate::scraper::page::chapter_body(paragraphs)),
    decreases paragraphs.len(),
{
    if paragraphs.len() > 0 {
        law_chapter_bodies_are_paragraphs(paragraphs.drop_last());
        lemma_paragraph(paragraphs.last().0);
        lemma_paragraphs_joined(
            crate::scraper::page::chapter_body(paragraphs.drop_last()),
            crate::scraper::page::paragraph(paragraphs.last().0),
        );
    }
}

/// What `html2md::parse_html` makes of markup.
pub uninterp spec fn markdown_of(html: Seq<char>) -> Seq<char>;

/// Calls `html2md::parse_html`, on markup of paragraphs only: there the
/// converter meets nothing but paragraphs and text, which it takes without
/// fail, and the markup has no depth.
/// Trusted: the result depends on `html` alone.
#[verifier::external_body]
pub(crate) fn html_to_markdown(html: &str) -> (r: String)
    requires
        paragraphs_only(html@),
    ensures
        r@ == markdown_of(html@),
{
    html2md::parse_html(html)
}

/// A chapter body as Markdown: what the converter makes of a body of
/// paragraphs only; the plain text of any other body.
pub open spec fn markdown_body(body: Seq<char>) -> Seq<char> {
    if paragraphs_only(body) {
        markdown_of(body)
    } else {
        plain_body(body, dom_fragment_text(body))
    }
}

/// Turns a chapter body into Markdown. A body that is not made of
/// paragraphs only is not handed to the converter: its plain text is taken.
pub fn body_to_markdown(body: &str) -> (out: String)
    ensures
        out@ == markdown_body(body@),
{
    if is_paragraphs_only(body) {
        html_to_markdown(body)
    } else {
        body_to_plain_text(body)
    }
}

/// The lines at the top of a text or Markdown file: title, author and,
/// where the book has one, description.
pub open spec fn description_lines(description: Option<Seq<char>>) -> Seq<char> {
    match description {
        Some(d) => d + "\n\n"@,
        None => Seq::<char>::empty(),
    }
}

/// One chapter of the text file, given the plain text of its body.
pub open spec fn text_chapter(title: Seq<char>, index: u32, plain: Seq<char>) -> Seq<char> {
    "\n--- Chapter "@ + decimal(index as nat) + ": "@ + title + " ---\n\n"@ + plain + "\n"@
}

pub open spec fn text_chapters(chapters: Seq<ChapterView>) -> Seq<char>
    decreases chapters.len(),
{
    if chapters.len() == 0 {
        Seq::<char>::empty()
    } else {
        text_chapters(chapters.drop_last()) + text_chapter(
            chapters.last().title,
            chapters.last().index,
            plain_body(chapters.last().body, dom_fragment_text(chapters.last().body)),
        )
    }
}

/// The book as one plain-text file.
pub open spec fn plain_text(book: BookView) -> Seq<char> {
    book.title + "\nBy "@ + book.author + "\n\n"@ + description_lines(book.description)
        + text_chapters(book.chapters)
}

/// One chapter of the Markdown file, given its body as Markdown.
pub open spec fn markdown_chapter(title: Seq<char>, body: Seq<char>) -> Seq<char> {
    "## "@ + title + "\n\n"@ + body + "\n\n"@
}

pub open spec fn markdown_chapters(chapters: Seq<ChapterView>) -> Seq<char>
    decreases chapters.len(),
{
    if chapters.len() == 0 {
        Seq::<char>::empty()
    } else {
        markdown_chapters(chapters.drop_last()) + markdown_chapter(
            chapters.last().title,
            markdown_body(chapters.last().body),
        )
    }
}

/// The book as one Markdown file.
pub open spec fn markdown_text(book: BookView) -> Seq<char> {
    "# "@ + book.title + "\n\nBy "@ + book.author + "\n\n"@ + description_lines(
        book.description,
    ) + "---\n\n"@ + markdown_chapters(book.chapters)
}

fn put_description_lines(out: &mut Vec<char>, description: &Option<String>)
    ensures
        final(out)@ == old(out)@ + description_lines(crate::model::opt_text(*description)),
{
    match description {
        Some(d) => {
            let ghost before = out@;
            append_str(out, d.as_str());
            append_str(out, "\n\n");
            assert(out@ =~= before + description_lines(Some(d@)));
        },
        None => {
            assert(out@ =~= old(out)@ + Seq::<char>::empty());
        },
    }
}

/// Writes one chapter of the text file from the plain text of its body.
pub fn text_chapter_of(title: &str, index: u32, plain: &str) -> (out: Vec<char>)
    ensures
        out@ == text_chapter(title@, index, plain@),
{
    let mut out = chars_of("\n--- Chapter ");
    push_decimal(&mut out, index as u64);
    append_str(&mut out, ": ");
    append_str(&mut out, title);
    append_str(&mut out, " ---\n\n");
    append_str(&mut out, plain);
    append_str(&mut out, "\n");
    out
}

/// Writes the book as one plain-text file: title, author, description,
/// and every chapter under a heading, its body freed of markup.
pub fn render_text(book: &Book) -> (r: Result<String, FormatError>)
    ensures
        text_result(r) == rendered(book@, plain_text(book@)),
{
    validate_book(book)?;
    let mut out = chars_of(book.title.as_str());
    append_str(&mut out, "\nBy ");
    append_str(&mut out, book.author.as_str());
    append_str(&mut out, "\n\n");
    put_description_lines(&mut out, &book.description);
    let ghost front = out@;
    let ghost all = book@.chapters;
    assert(all.take(0) =~= Seq::<ChapterView>::empty());
    assert(front + text_chapters(all.take(0)) =~= front);
    let mut i: usize = 0;
    while i < book.chapters.len()
        invariant
            i <= book.chapters.len(),
            all == book@.chapters,
            out@ == front + text_chapters(all.take(i as int)),
        decreases book.chapters.len() - i,
    {
        assert(all.take(i + 1).drop_last() =~= all.take(i as int));
        assert(all.take(i + 1).last() == all[i as int]);
        let c = &book.chapters[i];
        let plain = body_to_plain_text(c.body.as_str());
        let piece = text_chapter_of(c.title.as_str(), c.index, plain.as_str());
        append_chars(&mut out, piece.as_slice());
        assert(out@ =~= front + text_chapters(all.take(i + 1)));
        i += 1;
    }
    assert(all.take(book.chapters.len() as int) =~= all);
    assert(out@ =~= plain_text(book@));
    Ok(string_of(out.as_slice()))
}

/// Writes one chapter of the Markdown file from its body as Markdown.
pub fn markdown_chapter_of(title: &str, body: &str) -> (out: Vec<char>)
    ensures
        out@ == markdown_chapter(title@, body@),
{
    let mut out = chars_of("## ");
    append_str(&mut out, title);
    append_str(&mut out, "\n\n");
    append_str(&mut out, body);
    append_str(&mut out, "\n\n");
    out
}

/// Writes the book as one Markdown file: title, author, description,
/// and every chapter under a heading, its body turned into Markdown.
pub fn render_markdown(book: &Book) -> (r: Result<String, FormatError>)
    ensures
        text_result(r) == rendered(book@, markdown_text(book@)),
{
    validate_book(book)?;
    let mut out = chars_of("# ");
    append_str(&mut out, book.title.as_str());
    append_str(&mut out, "\n\nBy ");
    append_str(&mut out, book.author.as_str());
    append_str(&mut out, "\n\n");
    put_description_lines(&mut out, &book.description);
    append_str(&mut out, "---\n\n");
    let ghost front = out@;
    let ghost all = book@.chapters;
    assert(all.take(0) =~= Seq::<ChapterView>::empty());
    assert(front + markdown_chapters(all.take(0)) =~= front);
    let mut i: usize = 0;
    while i < book.chapters.len()
        invariant
            i <= book.chapters.len(),
            all == book@.chapters,
            out@ == front + markdown_chapters(all.take(i as int)),
        decreases book.chapters.len() - i,
    {
        assert(all.take(i + 1).drop_last() =~= all.take(i as int));
        assert(all.take(i + 1).last() == all[i as int]);
        let c = &book.chapters[i];
        let body = body_to_markdown(c.body.as_str());
        let piece = markdown_chapter_of(c.title.as_str(), body.as_str());
        append_chars(&mut out, piece.as_slice());
        assert(out@ =~= front + markdown_chapters(all.take(i + 1)));
        i += 1;
    }
    assert(all.take(book.chapters.len() as int) =~= all);
    assert(out@ =~= markdown_text(book@));
    Ok(string_of(out.as_slice()))
}

} // verus!
