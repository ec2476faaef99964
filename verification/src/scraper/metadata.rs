//! Reading a story's metadata from its index page: first from a structured
//! block of linked data, else from the page's markup.

use crate::model::opt_text;
use crate::scraper::error::{ErrorView, ScraperError};
use crate::scraper::json::{json_field, read_json_field, JsonField, JsonFieldView};
use crate::scraper::page::non_empty;
use crate::text::{
    chars_of, copy_range, find_from, first_occurrence, outside_tags, remove_tags, replace_all,
    replaced, string_of, trim_chars, trimmed,
};
use vstd::prelude::*;

verus! {

/// Title, author, description and cover URL of a story.
pub type Metadata = (Seq<char>, Seq<char>, Option<Seq<char>>, Option<Seq<char>>);

pub open spec fn metadata_view(m: (String, String, Option<String>, Option<String>)) -> Metadata {
    (m.0@, m.1@, opt_text(m.2), opt_text(m.3))
}

pub open spec fn metadata_option(
    m: Option<(String, String, Option<String>, Option<String>)>,
) -> Option<Metadata> {
    match m {
        Some(x) => Some(metadata_view(x)),
        None => None,
    }
}

pub open spec fn metadata_result(
    r: Result<(String, String, Option<String>, Option<String>), ScraperError>,
) -> Result<Metadata, ErrorView> {
    match r {
        Ok(x) => Ok(metadata_view(x)),
        Err(e) => Err(e@),
    }
}

/// The failure to find title or author anywhere on the page.
pub open spec fn missing_metadata() -> ErrorView {
    ErrorView::ParseStoryPage {
        message: "missing title or author (selector or structure may have changed)"@,
    }
}

pub fn missing_metadata_error() -> (e: ScraperError)
    ensures
        e@ == missing_metadata(),
{
    ScraperError::ParseStoryPage {
        message: "missing title or author (selector or structure may have changed)".to_string(),
    }
}

// ---------------------------------------------------------------------------
// Plain text of a description
// ---------------------------------------------------------------------------

/// `s` without tags, runs of three line breaks cut to two, trimmed.
pub open spec fn plain_text(s: Seq<char>) -> Seq<char> {
    trimmed(replaced(outside_tags(s), "\n\n\n"@, "\n\n"@))
}

pub fn strip_tags_chars(v: &[char]) -> (out: Vec<char>)
    ensures
        out@ == plain_text(v@),
{
    let bare = remove_tags(v);
    let three = chars_of("\n\n\n");
    let two = chars_of("\n\n");
    let cut = replace_all(bare.as_slice(), three.as_slice(), two.as_slice());
    trim_chars(cut.as_slice())
}

/// Removes the tags from a description and tidies its white space.
pub fn strip_html_tags(s: &str) -> (out: String)
    ensures
        out@ == plain_text(s@),
{
    let chars = chars_of(s);
    let out = strip_tags_chars(chars.as_slice());
    string_of(out.as_slice())
}

// ---------------------------------------------------------------------------
// Blocks of linked data
// ---------------------------------------------------------------------------

pub open spec fn block_open() -> Seq<char> {
    "<script type=\"application/ld+json\">"@
}

pub open spec fn block_close() -> Seq<char> {
    "</script>"@
}

/// The first block of linked data at or after `from`: its trimmed content,
/// and where to look for the next one (beyond the end of the page where the
/// block is not closed: such a block runs to the end).
pub open spec fn block_at(html: Seq<char>, from: int) -> Option<(Seq<char>, int)> {
    match first_occurrence(html, block_open(), from) {
        None => None,
        Some(p) => {
            let start = p + block_open().len();
            let end = match first_occurrence(html, block_close(), start) {
                Some(e) => e,
                None => html.len() as int,
            };
            Some((trimmed(html.subrange(start, end)), end + block_close().len()))
        },
    }
}

/// Reads the first block at or after `from`; the place to go on from is
/// `None` where the block was not closed.
pub fn read_block(html: &[char], from: usize) -> (r: Option<(Vec<char>, Option<usize>)>)
    ensures
        match r {
            Some(b) => block_at(html@, from as int) matches Some(found) && found.0 == b.0@
                && match b.1 {
                Some(next) => found.1 == next && from < next <= html.len(),
                None => found.1 > html.len(),
            },
            None => block_at(html@, from as int) is None,
        },
{
    let open = chars_of("<script type=\"application/ld+json\">");
    let close = chars_of("</script>");
    proof {
        reveal_strlit("</script>");
    }
    match find_from(html, open.as_slice(), from) {
        None => None,
        Some(p) => {
            let start = p + open.len();
            match find_from(html, close.as_slice(), start) {
                None => {
                    let inner = copy_range(html, start, html.len());
                    Some((trim_chars(inner.as_slice()), None))
                },
                Some(end) => {
                    let inner = copy_range(html, start, end);
                    Some((trim_chars(inner.as_slice()), Some(end + close.len())))
                },
            }
        },
    }
}

// ---------------------------------------------------------------------------
// A book in linked data
// ---------------------------------------------------------------------------

/// The text that a field holds, where it is a non-empty string.
pub open spec fn field_text(f: JsonFieldView) -> Option<Seq<char>> {
    match f {
        JsonFieldView::Text(t) => non_empty(t),
        _ => None,
    }
}

/// The description that a field holds: plain text, not empty.
pub open spec fn field_description(f: JsonFieldView) -> Option<Seq<char>> {
    match f {
        JsonFieldView::Text(t) => non_empty(plain_text(t)),
        _ => None,
    }
}

/// The metadata that the fields of a block of linked data give: the type
/// must be `Book`, and name and author's name must be there.
pub open spec fn book_of_fields(
    kind: JsonFieldView,
    name: JsonFieldView,
    author: JsonFieldView,
    description: JsonFieldView,
    image: JsonFieldView,
) -> Option<Metadata> {
    if kind == JsonFieldView::Text("Book"@) {
        match (field_text(name), field_text(author)) {
            (Some(title), Some(writer)) => Some(
                (title, writer, field_description(description), field_text(image)),
            ),
            _ => None,
        }
    } else {
        None
    }
}

/// The metadata in a block of linked data: the block must describe a book
/// and name its title and its author.
pub open spec fn book_in_json(doc: Seq<char>) -> Option<Metadata> {
    book_of_fields(
        json_field(doc, "/@type"@),
        json_field(doc, "/name"@),
        json_field(doc, "/author/name"@),
        json_field(doc, "/description"@),
        json_field(doc, "/image"@),
    )
}

fn text_of_field(f: JsonField) -> (r: Option<String>)
    ensures
        opt_text(r) == field_text(f@),
{
    match f {
        JsonField::Text(t) => if t.as_str().unicode_len() > 0 {
            Some(t)
        } else {
            None
        },
        _ => None,
    }
}

fn description_of_field(f: &JsonField) -> (r: Option<String>)
    ensures
        opt_text(r) == field_description(f@),
{
    match f {
        JsonField::Text(t) => {
            let plain = strip_html_tags(t.as_str());
            if plain.as_str().unicode_len() > 0 {
                Some(plain)
            } else {
                None
            }
        },
        _ => None,
    }
}

fn is_book_type(kind: &JsonField) -> (r: bool)
    ensures
        r == (kind@ == JsonFieldView::Text("Book"@)),
{
    match kind {
        JsonField::Text(t) => {
            let chars = chars_of(t.as_str());
            crate::text::is_text(chars.as_slice(), "Book")
        },
        _ => false,
    }
}

/// The metadata that the fields of a block of linked data give, if they
/// describe a book with title and author.
pub fn book_from_fields(
    kind: &JsonField,
    name: JsonField,
    author: JsonField,
    description: &JsonField,
    image: JsonField,
) -> (r: Option<(String, String, Option<String>, Option<String>)>)
    ensures
        metadata_option(r) == book_of_fields(kind@, name@, author@, description@, image@),
{
    if !is_book_type(kind) {
        return None;
    }
    match (text_of_field(name), text_of_field(author)) {
        (Some(t), Some(a)) => Some((t, a, description_of_field(description), text_of_field(image))),
        _ => None,
    }
}

/// The metadata that a block of linked data gives, if it describes a book
/// with title and author.
pub fn book_from_json(doc: &str) -> (r: Option<(String, String, Option<String>, Option<String>)>)
    ensures
        metadata_option(r) == book_in_json(doc@),
{
    let kind = read_json_field(doc, "/@type");
    let name = read_json_field(doc, "/name");
    let author = read_json_field(doc, "/author/name");
    let description = read_json_field(doc, "/description");
    let image = read_json_field(doc, "/image");
    book_from_fields(&kind, name, author, &description, image)
}

/// The metadata of the first block of linked data at or after `from` that
/// describes a book with title and author.
pub open spec fn first_book(html: Seq<char>, from: int) -> Option<Metadata>
    decreases html.len() - from,
{
    match block_at(html, from) {
        None => None,
        Some(b) => if book_in_json(b.0) is Some {
            book_in_json(b.0)
        } else if from < b.1 <= html.len() {
            first_book(html, b.1)
        } else {
            None
        },
    }
}

/// Looks through the blocks of linked data of a page for a book.
pub fn find_book(html: &[char]) -> (r: Option<(String, String, Option<String>, Option<String>)>)
    ensures
        metadata_option(r) == first_book(html@, 0),
{
    let mut from: usize = 0;
    loop
        invariant
            from <= html.len(),
            first_book(html@, 0) == first_book(html@, from as int),
        decreases html.len() - from,
    {
        match read_block(html, from) {
            None => {
                return None;
            },
            Some((doc, next)) => {
                let text = string_of(doc.as_slice());
                let found = book_from_json(text.as_str());
                if found.is_some() {
                    return found;
                }
                match next {
                    Some(n) => {
                        from = n;
                    },
                    None => {
                        return None;
                    },
                }
            },
        }
    }
}

} // verus!
