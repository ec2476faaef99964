use rdrscrape::cli::{
    extension_for_format, parse_chapter_range, parse_empty_chapter_behavior, parse_format,
    parse_locked_behavior, parse_site, sanitize_title,
};
use rdrscrape::formats::OutputFormat;
use rdrscrape::scraper::{EmptyChapterBehavior, LockedChapterBehavior, Site};

#[test]
fn sanitize_title_empty() {
    assert_eq!(sanitize_title(""), "book");
}

#[test]
fn sanitize_title_spaces_and_special_to_dashes() {
    assert_eq!(sanitize_title("My  Story!"), "my-story");
}

#[test]
fn sanitize_title_collapse_dashes_and_trim() {
    assert_eq!(sanitize_title("  --  a  --  b  --  "), "a-b");
}

#[test]
fn sanitize_title_alphanumeric_lowercased() {
    assert_eq!(sanitize_title("Mother of Learning"), "mother-of-learning");
}

#[test]
fn sanitize_title_non_ascii_becomes_dash() {
    assert_eq!(sanitize_title("Caf\u{e9} 9Z"), "caf-9z");
    assert_eq!(sanitize_title("\u{4e16}\u{754c}"), "book");
}

#[test]
fn parse_chapter_range_valid() {
    assert_eq!(parse_chapter_range("1-10").unwrap(), (1, 10));
    assert_eq!(parse_chapter_range("5-5").unwrap(), (5, 5));
    assert_eq!(parse_chapter_range("  3 - 7  ").unwrap(), (3, 7));
}

#[test]
fn parse_chapter_range_rejects_no_dash() {
    assert!(parse_chapter_range("1").is_err());
}

#[test]
fn parse_chapter_range_rejects_non_numeric() {
    assert!(parse_chapter_range("a-b").is_err());
    assert!(parse_chapter_range("1-b").is_err());
}

#[test]
fn parse_chapter_range_rejects_from_gt_to() {
    assert!(parse_chapter_range("10-1").is_err());
}

#[test]
fn parse_chapter_range_messages_and_limits() {
    assert_eq!(
        parse_chapter_range(" 7 ").unwrap_err(),
        "Invalid --chapters: expected 'from-to' (e.g. 1-10), got '7'"
    );
    assert_eq!(
        parse_chapter_range("x-2").unwrap_err(),
        "Invalid --chapters: 'x' is not a valid start chapter number"
    );
    assert_eq!(
        parse_chapter_range("1-2-3").unwrap_err(),
        "Invalid --chapters: '2-3' is not a valid end chapter number"
    );
    assert_eq!(
        parse_chapter_range("10-1").unwrap_err(),
        "Invalid --chapters: start (10). must be <= end (1)"
    );
    assert_eq!(parse_chapter_range("+1-4294967295").unwrap(), (1, 4294967295));
    assert!(parse_chapter_range("1-4294967296").is_err());
    assert!(parse_chapter_range("-5").is_err());
}

#[test]
fn parse_site_royalroad() {
    assert_eq!(parse_site("royalroad").unwrap(), Site::RoyalRoad);
    assert_eq!(parse_site("rr").unwrap(), Site::RoyalRoad);
    assert_eq!(parse_site("RoyalRoad").unwrap(), Site::RoyalRoad);
}

#[test]
fn parse_site_scribblehub() {
    assert_eq!(parse_site("scribblehub").unwrap(), Site::ScribbleHub);
    assert_eq!(parse_site("sh").unwrap(), Site::ScribbleHub);
}

#[test]
fn parse_site_invalid() {
    assert!(parse_site("other").is_err());
}

#[test]
fn parse_site_invalid_message_keeps_case() {
    assert_eq!(
        parse_site("Other").unwrap_err(),
        "Invalid --site value: 'Other'. Use 'royalroad' or 'scribblehub'."
    );
}

#[test]
fn parse_format_all() {
    assert_eq!(parse_format("epub").unwrap(), OutputFormat::Epub);
    assert_eq!(parse_format("json").unwrap(), OutputFormat::Json);
    assert_eq!(parse_format("html").unwrap(), OutputFormat::Html);
    assert_eq!(parse_format("markdown").unwrap(), OutputFormat::Markdown);
    assert_eq!(parse_format("md").unwrap(), OutputFormat::Markdown);
    assert_eq!(parse_format("text").unwrap(), OutputFormat::Text);
    assert_eq!(parse_format("txt").unwrap(), OutputFormat::Text);
    assert_eq!(parse_format("EPUB").unwrap(), OutputFormat::Epub);
}

#[test]
fn parse_format_invalid() {
    assert!(parse_format("pdf").is_err());
}

#[test]
fn parse_locked_behavior_all() {
    assert_eq!(
        parse_locked_behavior("skip").unwrap(),
        LockedChapterBehavior::Skip
    );
    assert_eq!(
        parse_locked_behavior("placeholder").unwrap(),
        LockedChapterBehavior::Placeholder
    );
    assert_eq!(
        parse_locked_behavior("fail").unwrap(),
        LockedChapterBehavior::Fail
    );
    assert_eq!(
        parse_locked_behavior("SKIP").unwrap(),
        LockedChapterBehavior::Skip
    );
    assert!(parse_locked_behavior("other").is_err());
}

#[test]
fn parse_empty_chapter_behavior_all() {
    assert_eq!(
        parse_empty_chapter_behavior("skip").unwrap(),
        EmptyChapterBehavior::Skip
    );
    assert_eq!(
        parse_empty_chapter_behavior("Placeholder").unwrap(),
        EmptyChapterBehavior::Placeholder
    );
    assert_eq!(
        parse_empty_chapter_behavior("fail").unwrap(),
        EmptyChapterBehavior::Fail
    );
    assert_eq!(
        parse_empty_chapter_behavior("none").unwrap_err(),
        "Invalid --empty-chapters value: 'none'. Use skip, placeholder, or fail."
    );
}

#[test]
fn extension_for_format_each() {
    assert_eq!(extension_for_format(OutputFormat::Epub), "epub");
    assert_eq!(extension_for_format(OutputFormat::Json), "json");
    assert_eq!(extension_for_format(OutputFormat::Html), "html");
    assert_eq!(extension_for_format(OutputFormat::Markdown), "md");
    assert_eq!(extension_for_format(OutputFormat::Text), "txt");
}

#[test]
fn default_output_path_uses_output_dir_and_sanitized_title() {
    let output_dir = std::path::PathBuf::from("out");
    let base = sanitize_title("My Book");
    let ext = extension_for_format(OutputFormat::Epub);
    let path = output_dir.join(format!("{}.{}", base, ext));
    assert_eq!(path, std::path::PathBuf::from("out/my-book.epub"));
}
