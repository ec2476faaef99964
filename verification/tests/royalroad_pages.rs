use rdrscrape::scraper::error::ScraperError;
use rdrscrape::scraper::json::JsonField;
use rdrscrape::scraper::metadata::book_from_fields;
use rdrscrape::scraper::royalroad::{
    entry_from_fields, extract_json_array_with_strings, parse_chapter_page, parse_metadata,
    parse_toc, parse_toc_with_locked,
};

#[test]
fn royalroad_inline_parse_metadata_json_ld() -> Result<(), ScraperError> {
    let html = r#"<html><head></head><body>
<script type="application/ld+json">
{"@type":"Book","name":"Inline Test Book","author":{"name":"Inline Author"},"description":"A description.","image":"https://example.com/cover.png"}
</script>
</body></html>"#;
    let (title, author, description, cover_url) = parse_metadata(html)?;
    assert_eq!(title, "Inline Test Book");
    assert_eq!(author, "Inline Author");
    assert_eq!(description.as_deref(), Some("A description."));
    assert_eq!(cover_url.as_deref(), Some("https://example.com/cover.png"));
    Ok(())
}

#[test]
fn inline_parse_toc() -> Result<(), ScraperError> {
    let html = r#"<script>
window.chapters = [{"id":101,"title":"Ch 1","url":"/fiction/1/slug/chapter/1/ch-1","order":0,"isUnlocked":true}];
</script>"#;
    let toc = parse_toc(html)?;
    assert_eq!(toc.len(), 1);
    assert_eq!(toc[0].0, 1);
    assert!(toc[0].1.contains("royalroad.com"));
    assert!(toc[0].1.ends_with("/ch-1"));
    assert_eq!(toc[0].2, "Ch 1");
    Ok(())
}

#[test]
fn inline_parse_toc_skips_locked() -> Result<(), ScraperError> {
    let html = r#"<script>
window.chapters = [{"id":1,"title":"Free","url":"/fiction/1/s/free","order":0,"isUnlocked":true},{"id":2,"title":"Locked","url":"/fiction/1/s/locked","order":1,"isUnlocked":false}];
</script>"#;
    let toc = parse_toc(html)?;
    assert_eq!(toc.len(), 1);
    assert_eq!(toc[0].2, "Free");
    Ok(())
}

#[test]
fn royalroad_inline_parse_chapter_page() -> Result<(), ScraperError> {
    let html = r#"<!DOCTYPE html><html><head><meta property="og:title" content="1. Good Morning - Book _ Royal Road"/></head><body>
<h1 class="font-white break-word">1. Good Morning</h1>
<div class="chapter-inner chapter-content">
<p>First paragraph here.</p>
<p>Second paragraph.</p>
</div>
</body></html>"#;
    let (title, body) = parse_chapter_page(
        html,
        1,
        "https://www.royalroad.com/fiction/1/slug/chapter/1/good-morning",
    )?;
    assert_eq!(title, "1. Good Morning");
    assert!(body.contains("<p>"));
    assert!(body.contains("First paragraph here"));
    assert!(body.contains("Second paragraph"));
    Ok(())
}

#[test]
fn royalroad_inline_parse_chapter_page_title_fallback_with_dash_and_pipe(
) -> Result<(), ScraperError> {
    let html = r#"<!DOCTYPE html><html><head><meta property="og:title" content="1. Good Morning - Brother - Book _ Royal Road"/></head><body>
<div class="chapter-inner chapter-content"><p>Content.</p></div></body></html>"#;
    let (title, _) =
        parse_chapter_page(html, 1, "https://www.royalroad.com/fiction/1/s/chapter/1")?;
    assert_eq!(title, "1. Good Morning - Brother - Book");
    Ok(())
}

#[test]
fn array_extraction_keeps_bracket_inside_title() {
    let text = r#"x = [{"title":"Part ] one [","n":[1,2]},{"title":"say \"]\""}]; y = [3]"#;
    assert_eq!(
        extract_json_array_with_strings(text).as_deref(),
        Some(r#"[{"title":"Part ] one [","n":[1,2]},{"title":"say \"]\""}]"#)
    );
    assert_eq!(extract_json_array_with_strings("no array"), None);
    assert_eq!(extract_json_array_with_strings("[1, [2, 3]"), None);
}

#[test]
fn toc_with_locked_is_sorted_and_exact() -> Result<(), ScraperError> {
    let html = r#"<script>window.chapters = [{"id":2,"title":"B ] side","url":"/fiction/1/s/b","order":1,"isUnlocked":false},{"id":1,"title":"A","url":"fiction/1/s/a"}];</script>"#;
    let toc = parse_toc_with_locked(html)?;
    assert_eq!(toc.len(), 2);
    assert_eq!(toc[0].index, 1);
    assert_eq!(toc[0].url, "https://www.royalroad.com/fiction/1/s/a");
    assert_eq!(toc[0].title, "A");
    assert!(toc[0].unlocked);
    assert_eq!(toc[1].index, 2);
    assert_eq!(toc[1].url, "https://www.royalroad.com/fiction/1/s/b");
    assert_eq!(toc[1].title, "B ] side");
    assert!(!toc[1].unlocked);
    Ok(())
}

#[test]
fn chapter_body_is_escaped_paragraphs() -> Result<(), ScraperError> {
    let html = r#"<html><head><title>T - Royal Road</title></head><body>
<div class="chapter-inner chapter-content"><p> a &amp; b </p><div><p>nested</p></div><p>x &lt; "y"</p></div></body></html>"#;
    let (title, body) = parse_chapter_page(html, 7, "u")?;
    assert_eq!(title, "T");
    assert_eq!(body, "<p>a &amp; b</p><p>x &lt; &quot;y&quot;</p>");
    Ok(())
}

#[test]
fn chapter_without_container_is_parse_failure() {
    let html = "<html><head><title></title></head><body><p>x</p></body></html>";
    match parse_chapter_page(html, 3, "https://www.royalroad.com/c") {
        Err(ScraperError::ParseChapter { index, url }) => {
            assert_eq!(index, 3);
            assert_eq!(url, "https://www.royalroad.com/c");
        }
        other => panic!("expected ParseChapter, got {:?}", other),
    }
}

#[test]
fn chapter_with_empty_container_has_empty_body_and_numbered_title() -> Result<(), ScraperError> {
    let html = r#"<html><body><div class="chapter-inner chapter-content"></div></body></html>"#;
    let (title, body) = parse_chapter_page(html, 12, "u")?;
    assert_eq!(title, "Chapter 12");
    assert_eq!(body, "");
    Ok(())
}

#[test]
fn metadata_falls_back_to_markup() -> Result<(), ScraperError> {
    // the linked data describes no book, so the markup is read
    let html = r#"<html><head><meta property="og:image" content="https://cdn/cover.jpg"/>
<script type="application/ld+json">{"@type":"WebSite","name":"Site"}</script>
<script type="application/ld+json">{"@type":"Book","name":"Second block","author":{"name":"X"}}</script>
</head><body><h1 class="font-white"> Markup Title </h1><h4><a class="font-white">Markup Author</a></h4>
<div class="description"> Some <b>words</b>. </div></body></html>"#;
    let (title, author, description, cover_url) = parse_metadata(html)?;
    assert_eq!(title, "Markup Title");
    assert_eq!(author, "Markup Author");
    assert_eq!(description.as_deref(), Some("Some words."));
    assert_eq!(cover_url.as_deref(), Some("https://cdn/cover.jpg"));
    Ok(())
}

#[test]
fn metadata_without_title_or_author_is_a_parse_failure() {
    match parse_metadata("<html><body><h1 class=\"font-white\">Only title</h1></body></html>") {
        Err(ScraperError::ParseStoryPage { message }) => assert_eq!(
            message,
            "missing title or author (selector or structure may have changed)"
        ),
        other => panic!("expected ParseStoryPage, got {:?}", other),
    }
}

#[test]
fn unclosed_linked_data_block_runs_to_the_end() -> Result<(), ScraperError> {
    let html = r#"<script type="application/ld+json"> {"@type":"Book","name":"N","author":{"name":"A"}} "#;
    let (title, author, description, cover_url) = parse_metadata(html)?;
    assert_eq!((title.as_str(), author.as_str()), ("N", "A"));
    assert_eq!(description, None);
    assert_eq!(cover_url, None);
    Ok(())
}

fn toc_failure(array: &str) -> String {
    let html = format!("<script>window.chapters = {};</script>", array);
    match parse_toc_with_locked(&html) {
        Err(ScraperError::ChapterListParse { reason }) => reason,
        other => panic!("expected ChapterListParse, got {:?}", other),
    }
}

#[test]
fn chapter_entries_must_be_complete() {
    assert_eq!(
        toc_failure(r#"[{"title":"T","url":"/u"}]"#),
        "chapter entry without a valid `id`"
    );
    assert_eq!(
        toc_failure(r#"[{"id":-1,"title":"T","url":"/u"}]"#),
        "chapter entry without a valid `id`"
    );
    assert_eq!(
        toc_failure(r#"[{"id":1,"url":"/u"}]"#),
        "chapter entry without a valid `title`"
    );
    assert_eq!(
        toc_failure(r#"[{"id":1,"title":"T","url":5}]"#),
        "chapter entry without a valid `url`"
    );
    assert_eq!(
        toc_failure(r#"[{"id":1,"title":"T","url":"/u","order":"2"}]"#),
        "chapter entry with an invalid `order`"
    );
    assert_eq!(
        toc_failure(r#"[{"id":1,"title":"T","url":"/u","order":4294967295}]"#),
        "chapter entry with an `order` out of range"
    );
    assert_eq!(
        toc_failure(r#"[{"id":1,"title":"T","url":"/u","isUnlocked":null}]"#),
        "chapter entry with an invalid `isUnlocked`"
    );
    assert_eq!(
        toc_failure(r#"[{"id":1,"title":"T","url":"/u"}, 7]"#),
        "chapter entry without a valid `id`"
    );
    assert!(!toc_failure("[{]").is_empty());
}

#[test]
fn table_of_contents_source_must_be_there() {
    let reason = |html: &str| match parse_toc_with_locked(html) {
        Err(ScraperError::ChapterListParse { reason }) => reason,
        other => panic!("expected ChapterListParse, got {:?}", other),
    };
    assert_eq!(reason("<html></html>"), "window.chapters not found");
    assert_eq!(reason("window.chapters = null;"), "window.chapters array start not found");
    assert_eq!(
        reason(r#"window.chapters = [{"title":"open ]"#),
        "could not extract window.chapters array"
    );
    assert!(matches!(
        parse_toc(r#"window.chapters = [{"id":1,"title":"L","url":"/l","isUnlocked":false}];"#),
        Err(ScraperError::EmptyChapterList)
    ));
    let largest = parse_toc_with_locked(
        r#"window.chapters = [{"id":1,"title":"T","url":"/u","order":4294967294}];"#,
    )
    .unwrap();
    assert_eq!(largest[0].index, 4294967295);
}

#[test]
fn entries_of_equal_order_keep_their_order() {
    let toc = parse_toc_with_locked(
        r#"window.chapters = [{"id":1,"title":"b","url":"/b","order":1},{"id":2,"title":"a1","url":"/a1"},{"id":3,"title":"a2","url":"/a2","order":0}];"#,
    )
    .unwrap();
    let titles: Vec<&str> = toc.iter().map(|e| e.title.as_str()).collect();
    assert_eq!(titles, vec!["a1", "a2", "b"]);
}

#[test]
fn entry_is_decided_from_the_fields_of_an_item() {
    let text = |s: &str| JsonField::Text(s.to_string());
    let id = JsonField::Number(Some(5));
    assert_eq!(
        entry_from_fields(&id, text("T"), text("/u"), &JsonField::Absent, &JsonField::Absent),
        Ok((1, "/u".to_string(), "T".to_string(), true))
    );
    assert_eq!(
        entry_from_fields(
            &id,
            text("T"),
            text("u"),
            &JsonField::Number(Some(41)),
            &JsonField::Flag(false)
        ),
        Ok((42, "u".to_string(), "T".to_string(), false))
    );
    assert_eq!(
        entry_from_fields(
            &id,
            text("T"),
            text("u"),
            &JsonField::Number(Some(4294967294)),
            &JsonField::Flag(true)
        ),
        Ok((4294967295, "u".to_string(), "T".to_string(), true))
    );
    let fails = |id: &JsonField, title: JsonField, url: JsonField, order: &JsonField, free: &JsonField| {
        entry_from_fields(id, title, url, order, free).unwrap_err()
    };
    let none = JsonField::Absent;
    assert_eq!(
        fails(&JsonField::Number(None), JsonField::Null, JsonField::Null, &JsonField::Null, &none),
        "chapter entry without a valid `id`"
    );
    assert_eq!(
        fails(&text("5"), text("T"), text("u"), &none, &none),
        "chapter entry without a valid `id`"
    );
    assert_eq!(
        fails(&id, JsonField::Nested, JsonField::Null, &JsonField::Null, &JsonField::Null),
        "chapter entry without a valid `title`"
    );
    assert_eq!(
        fails(&id, text("T"), JsonField::Absent, &JsonField::Null, &JsonField::Null),
        "chapter entry without a valid `url`"
    );
    assert_eq!(
        fails(&id, text("T"), text("u"), &JsonField::Null, &JsonField::Null),
        "chapter entry with an invalid `order`"
    );
    assert_eq!(
        fails(&id, text("T"), text("u"), &JsonField::Number(None), &none),
        "chapter entry with an invalid `order`"
    );
    assert_eq!(
        fails(&id, text("T"), text("u"), &JsonField::Number(Some(4294967295)), &JsonField::Null),
        "chapter entry with an `order` out of range"
    );
    assert_eq!(
        fails(&id, text("T"), text("u"), &none, &JsonField::Number(Some(1))),
        "chapter entry with an invalid `isUnlocked`"
    );
}

#[test]
fn book_is_decided_from_the_fields_of_linked_data() {
    let text = |s: &str| JsonField::Text(s.to_string());
    assert_eq!(
        book_from_fields(&text("Book"), text("N"), text("A"), &text(" <i>D</i> "), text("I")),
        Some(("N".to_string(), "A".to_string(), Some("D".to_string()), Some("I".to_string())))
    );
    assert_eq!(
        book_from_fields(&text("Book"), text("N"), text("A"), &text("<br>"), JsonField::Null),
        Some(("N".to_string(), "A".to_string(), None, None))
    );
    assert_eq!(
        book_from_fields(&text("Book"), text("N"), text("A"), &JsonField::Absent, text("")),
        Some(("N".to_string(), "A".to_string(), None, None))
    );
    assert_eq!(book_from_fields(&text("book"), text("N"), text("A"), &text("D"), text("I")), None);
    assert_eq!(
        book_from_fields(&JsonField::Absent, text("N"), text("A"), &text("D"), text("I")),
        None
    );
    assert_eq!(book_from_fields(&text("Book"), text(""), text("A"), &text("D"), text("I")), None);
    assert_eq!(
        book_from_fields(&text("Book"), text("N"), JsonField::Nested, &text("D"), text("I")),
        None
    );
}
