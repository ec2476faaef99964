use rdrscrape::epub::{cover_media_type, identifier, xml_escape, EpubError};
use rdrscrape::formats::{
    body_to_plain_text, html_escape_attr, plain_text_or_body, validate_book, FormatError,
};
use rdrscrape::model::{Book, Chapter};

fn minimal_book() -> Book {
    Book {
        title: "Test Book".to_string(),
        author: "Test Author".to_string(),
        description: Some("A test.".to_string()),
        cover_url: None,
        chapters: vec![Chapter {
            title: "Chapter One".to_string(),
            index: 1,
            body: "<p>First paragraph.</p><p>Second paragraph.</p>".to_string(),
        }],
        source_url: None,
    }
}

#[test]
fn validate_rejects_empty_title() {
    let mut book = minimal_book();
    book.title.clear();
    assert!(matches!(validate_book(&book), Err(FormatError::EmptyTitle)));
}

#[test]
fn validate_rejects_empty_author() {
    let mut book = minimal_book();
    book.author.clear();
    assert!(matches!(validate_book(&book), Err(FormatError::EmptyAuthor)));
}

#[test]
fn validate_accepts_book_and_rejects_blank_title() {
    let mut book = minimal_book();
    assert!(validate_book(&book).is_ok());
    book.title = " \t\n".to_string();
    assert!(matches!(validate_book(&book), Err(FormatError::EmptyTitle)));
}

#[test]
fn validate_book_rejects_empty_title() {
    let mut book = minimal_book();
    book.title.clear();
    assert!(matches!(rdrscrape::epub::validate_book(&book), Err(EpubError::EmptyTitle)));
}

#[test]
fn validate_book_rejects_empty_author() {
    let mut book = minimal_book();
    book.author.clear();
    assert!(matches!(rdrscrape::epub::validate_book(&book), Err(EpubError::EmptyAuthor)));
}

#[test]
fn validate_book_rejects_no_chapters() {
    let mut book = minimal_book();
    book.chapters.clear();
    assert!(matches!(rdrscrape::epub::validate_book(&book), Err(EpubError::NoChapters)));
}

#[test]
fn body_to_plain_text_single_p() {
    assert_eq!(body_to_plain_text("<p>Hello</p>"), "Hello");
}

#[test]
fn body_to_plain_text_multiple_p() {
    let out = body_to_plain_text("<p>A</p><p>B</p>");
    assert!(out.contains("A"));
    assert!(out.contains("B"));
}

#[test]
fn body_to_plain_text_plain_text_fallback() {
    let raw = "No tags here.";
    assert_eq!(body_to_plain_text(raw), "No tags here.");
}

#[test]
fn body_to_plain_text_whitespace_only_fallback() {
    let out = body_to_plain_text("   \n  ");
    assert_eq!(out, "");
}

#[test]
fn plain_text_falls_back_to_trimmed_body() {
    assert_eq!(plain_text_or_body("  <br/> ", " \n"), "<br/>");
    assert_eq!(plain_text_or_body("<p> x </p>", " x "), "x");
}

#[test]
fn html_escape_attr_escapes_special_chars() {
    assert_eq!(html_escape_attr("a & b"), "a &amp; b");
    assert_eq!(html_escape_attr("<tag>"), "&lt;tag&gt;");
    assert_eq!(html_escape_attr(r#"say "hi""#), "say &quot;hi&quot;");
}

#[test]
fn html_escape_attr_no_double_escape() {
    let once = html_escape_attr("a & b");
    let twice = html_escape_attr(&once);
    assert_eq!(once, "a &amp; b");
    assert_eq!(twice, "a &amp;amp; b");
}

#[test]
fn xml_escape_also_escapes_apostrophe() {
    assert_eq!(xml_escape("it's <a & \"b\">"), "it&apos;s &lt;a &amp; &quot;b&quot;&gt;");
    assert_eq!(rdrscrape::epub::html_escape_attr("it's"), "it's");
}

#[test]
fn identifier_and_media_type() {
    let mut book = minimal_book();
    assert_eq!(identifier(&book), "urn:rdrscrape:book");
    book.source_url = Some("https://www.royalroad.com/fiction/1/x".to_string());
    assert_eq!(identifier(&book), "https://www.royalroad.com/fiction/1/x");
    assert_eq!(cover_media_type("jpg"), "image/jpeg");
    assert_eq!(cover_media_type("png"), "image/png");
    assert_eq!(cover_media_type("gif"), "image/png");
}
