//! What the EPUB writer decides before it writes: whether a book can be
//! written, how it is identified, and how text is escaped.

pub mod documents;

use crate::model::{opt_text, Book};
use crate::scraper::page::filled;
use crate::text::{chars_of, contains_text, has_text, is_text, string_of, trimmed};
use vstd::prelude::*;

verus! {

/// The version of the EPUB format to write.
#[derive(Debug, Clone, Copy, PartialEq, Eq, Structural)]
pub enum EpubVersion {
    /// EPUB 3: navigation document, HTML5 chapters; the default.
    Epub3,
    /// EPUB 2: NCX only, XHTML 1.1 chapters.
    Epub2,
}

/// Why a book could not be written as EPUB.
#[derive(Debug)]
pub enum EpubError {
    EmptyTitle,
    EmptyAuthor,
    NoChapters,
    /// Writing to the file at `path` failed.
    Io { path: String, source: String },
    /// The file at `path` could not be created.
    CreateFile { path: String, source: String },
    /// The archive could not be written.
    Zip(String),
}

/// The first of: a blank title, a blank author, no chapters.
pub open spec fn epub_fault(title: Seq<char>, author: Seq<char>, chapters: nat) -> Option<
    EpubError,
> {
    if trimmed(title).len() == 0 {
        Some(EpubError::EmptyTitle)
    } else if trimmed(author).len() == 0 {
        Some(EpubError::EmptyAuthor)
    } else if chapters == 0 {
        Some(EpubError::NoChapters)
    } else {
        None
    }
}

/// Checks that a book has a title, an author and a chapter.
pub fn validate_book(book: &Book) -> (r: Result<(), EpubError>)
    ensures
        match r {
            Ok(_) => epub_fault(book@.title, book@.author, book@.chapters.len()) is None,
            Err(e) => epub_fault(book@.title, book@.author, book@.chapters.len()) == Some(e),
        },
{
    if crate::formats::is_blank_text(book.title.as_str()) {
        return Err(EpubError::EmptyTitle);
    }
    if crate::formats::is_blank_text(book.author.as_str()) {
        return Err(EpubError::EmptyAuthor);
    }
    if book.chapters.len() == 0 {
        return Err(EpubError::NoChapters);
    }
    Ok(())
}

/// The identifier of a book: its source URL, or a fixed name without one.
pub open spec fn book_identifier(source_url: Option<Seq<char>>) -> Seq<char> {
    match source_url {
        Some(u) => u,
        None => "urn:rdrscrape:book"@,
    }
}

/// The identifier to write into the package of a book.
pub fn identifier(book: &Book) -> (id: String)
    ensures
        id@ == book_identifier(book@.source_url),
{
    match &book.source_url {
        Some(u) => u.clone(),
        None => "urn:rdrscrape:book".to_string(),
    }
}

/// What stands at the front of the book.
#[derive(Debug, Clone, Copy, PartialEq, Eq, Structural)]
pub enum Cover {
    /// The book names no cover image: no cover page.
    NoCover,
    /// The cover image could not be had: a cover page with title and author.
    TitleOnly,
    /// A cover page with the image, which is a JPEG or else a PNG.
    Image { jpeg: bool },
}

/// The file extension of a cover image.
pub open spec fn image_extension(jpeg: bool) -> Seq<char> {
    if jpeg {
        "jpg"@
    } else {
        "png"@
    }
}

/// The file extension of a cover image.
pub fn extension_of_image(jpeg: bool) -> (ext: &'static str)
    ensures
        ext@ == image_extension(jpeg),
{
    if jpeg {
        "jpg"
    } else {
        "png"
    }
}

/// Whether a content type names a JPEG image: it does where it holds
/// `jpeg` or `jpg`; without a content type the image is taken as PNG.
pub open spec fn names_jpeg(content_type: Option<Seq<char>>) -> bool {
    match content_type {
        Some(t) => contains_text(t, "jpeg"@) || contains_text(t, "jpg"@),
        None => false,
    }
}

/// Whether the content type of a cover image names a JPEG image.
pub fn is_jpeg_content_type(content_type: Option<&str>) -> (jpeg: bool)
    ensures
        jpeg == names_jpeg(
            match content_type {
                Some(t) => Some(t@),
                None => None,
            },
        ),
{
    match content_type {
        Some(t) => {
            let chars = chars_of(t);
            let long = chars_of("jpeg");
            let short = chars_of("jpg");
            has_text(chars.as_slice(), long.as_slice()) || has_text(
                chars.as_slice(),
                short.as_slice(),
            )
        },
        None => false,
    }
}

/// The URL to fetch the cover image from: that of the book where it is
/// not empty.
pub fn cover_url_to_fetch(book: &Book) -> (url: Option<String>)
    ensures
        opt_text(url) == filled(book@.cover_url),
{
    match &book.cover_url {
        Some(u) => if u.as_str().unicode_len() > 0 {
            Some(u.clone())
        } else {
            None
        },
        None => None,
    }
}

/// The media type of a cover image with the file extension `ext`.
pub open spec fn media_type(ext: Seq<char>) -> Seq<char> {
    if ext == "jpg"@ {
        "image/jpeg"@
    } else {
        "image/png"@
    }
}

/// The media type of a cover image with the file extension `ext`.
pub fn cover_media_type(ext: &str) -> (t: &'static str)
    ensures
        t@ == media_type(ext@),
{
    let e = chars_of(ext);
    if is_text(e.as_slice(), "jpg") {
        "image/jpeg"
    } else {
        "image/png"
    }
}

/// What one character becomes once the five XML characters are escaped.
pub open spec fn xml_escaped_char(c: char) -> Seq<char> {
    if c == '\'' {
        "&apos;"@
    } else {
        crate::text::escaped_char(c)
    }
}

/// `s` with `&`, `<`, `>`, `"` and `'` replaced by their entities.
pub open spec fn xml_escaped(s: Seq<char>) -> Seq<char>
    decreases s.len(),
{
    if s.len() == 0 {
        Seq::<char>::empty()
    } else {
        xml_escaped(s.drop_last()) + xml_escaped_char(s.last())
    }
}

/// Escapes `&`, `<`, `>`, `"` and `'` for use in XML.
pub fn xml_escape(s: &str) -> (out: String)
    ensures
        out@ == xml_escaped(s@),
{
    let chars = chars_of(s);
    let mut out: Vec<char> = Vec::new();
    let mut i: usize = 0;
    assert(out@ =~= xml_escaped(chars@.take(0)));
    while i < chars.len()
        invariant
            i <= chars.len(),
            out@ == xml_escaped(chars@.take(i as int)),
        decreases chars.len() - i,
    {
        assert(chars@.take(i + 1).drop_last() =~= chars@.take(i as int));
        let c = chars[i];
        if c == '\'' {
            crate::text::append_str(&mut out, "&apos;");
        } else {
            crate::text::push_escaped_char(&mut out, c);
        }
        i += 1;
    }
    assert(chars@.take(chars.len() as int) =~= chars@);
    string_of(out.as_slice())
}

/// Escapes `&`, `<`, `>` and `"` for use in attribute values.
pub fn html_escape_attr(s: &str) -> (out: String)
    ensures
        out@ == crate::text::escaped(s@),
{
    crate::formats::html_escape_attr(s)
}

} // verus!
