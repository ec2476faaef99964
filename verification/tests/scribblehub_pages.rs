use rdrscrape::scraper::error::ScraperError;
use rdrscrape::scraper::scribblehub::{
    ensure_series_url, extract_series_id_from_url, merge_toc_entries, next_toc_page_url,
    parse_chapter_page, parse_metadata, parse_toc_page, parse_toc_page_from_url,
};

const SCRIBBLEHUB_BASE: &str = "https://www.scribblehub.com";

#[test]
fn scribblehub_inline_parse_metadata_json_ld() -> Result<(), ScraperError> {
    let html = r#"<html><head></head><body>
<script type="application/ld+json">
{"@type":"Book","name":"SH Inline Book","author":{"name":"SH Author"},"description":"Desc","image":"https://example.com/cover.jpg"}
</script>
</body></html>"#;
    let (title, author, description, cover_url) = parse_metadata(html)?;
    assert_eq!(title, "SH Inline Book");
    assert_eq!(author, "SH Author");
    assert_eq!(description.as_deref(), Some("Desc"));
    assert_eq!(cover_url.as_deref(), Some("https://example.com/cover.jpg"));
    Ok(())
}

#[test]
fn inline_parse_toc_page() -> Result<(), ScraperError> {
    let html = r#"<html><body>
<ol class="toc_ol">
<li class="toc_w" order="1"><a class="toc_a" href="/read/123/series-slug/chapter/1/">Chapter 1: Start</a></li>
</ol>
</body></html>"#;
    let entries = parse_toc_page(html, SCRIBBLEHUB_BASE)?;
    assert_eq!(entries.len(), 1);
    assert!(entries[0].1.contains("scribblehub.com"));
    assert_eq!(entries[0].2, "Chapter 1: Start");
    Ok(())
}

#[test]
fn scribblehub_inline_parse_chapter_page() -> Result<(), ScraperError> {
    let html = r#"<!DOCTYPE html><html><head><title>Book - Chapter 1: Intro | Scribble Hub</title></head><body>
<div class="chapter-title">Chapter 1: Intro</div>
<div id="chp_raw" class="chp_raw">
<p>First line of the chapter.</p>
<p>Second line.</p>
</div>
</body></html>"#;
    let (title, body) = parse_chapter_page(
        html,
        1,
        "https://www.scribblehub.com/read/123/slug/chapter/1/",
    )?;
    assert_eq!(title, "Chapter 1: Intro");
    assert!(body.contains("<p>"));
    assert!(body.contains("First line of the chapter"));
    assert!(body.contains("Second line"));
    Ok(())
}

#[test]
fn scribblehub_inline_parse_chapter_page_title_fallback_with_dash_and_pipe(
) -> Result<(), ScraperError> {
    let html = r#"<!DOCTYPE html><html><head><title>Book - Chapter 1 - The Beginning | Scribble Hub</title></head><body>
<div id="chp_raw" class="chp_raw"><p>Content.</p></div></body></html>"#;
    let (title, _) = parse_chapter_page(
        html,
        1,
        "https://www.scribblehub.com/read/123/slug/chapter/1/",
    )?;
    assert_eq!(title, "Book - Chapter 1 - The Beginning");
    let html_pipe = r#"<!DOCTYPE html><html><head><title>Book - Chapter 1 | Part 2 | Scribble Hub</title></head><body>
<div id="chp_raw" class="chp_raw"><p>Content.</p></div></body></html>"#;
    let (title2, _) = parse_chapter_page(
        html_pipe,
        1,
        "https://www.scribblehub.com/read/123/slug/chapter/1/",
    )?;
    assert_eq!(title2, "Book - Chapter 1 | Part 2");
    Ok(())
}

#[test]
fn merge_toc_entries_merges_and_sorts() {
    let page1 = vec![
        (2, "https://example.com/ch2".to_string(), "Ch2".to_string()),
        (1, "https://example.com/ch1".to_string(), "Ch1".to_string()),
    ];
    let page2 = vec![(3, "https://example.com/ch3".to_string(), "Ch3".to_string())];
    let mut all = page1;
    all.extend(page2);
    let merged = merge_toc_entries(all);
    assert_eq!(merged.len(), 3);
    assert_eq!(merged[0].0, 1);
    assert_eq!(merged[0].2, "Ch1");
    assert_eq!(merged[1].0, 2);
    assert_eq!(merged[2].0, 3);
}

#[test]
fn merge_toc_entries_dedupes_by_url() {
    let url = "https://example.com/ch2".to_string();
    let page1 = vec![
        (1, "https://example.com/ch1".to_string(), "Ch1".to_string()),
        (2, url.clone(), "Ch2".to_string()),
    ];
    let page2 = vec![
        (2, url, "Ch2 again".to_string()),
        (3, "https://example.com/ch3".to_string(), "Ch3".to_string()),
    ];
    let mut all = page1;
    all.extend(page2);
    let merged = merge_toc_entries(all);
    assert_eq!(merged.len(), 3);
    assert_eq!(merged[1].2, "Ch2");
}

#[test]
fn next_toc_page_url_returns_some_when_next_link_present() {
    let html = r#"<div id="pagination-mesh-toc"><a class="page-link next" href="?toc=2">Next</a></div>"#;
    let url = next_toc_page_url(
        html,
        "https://www.scribblehub.com/series/123/slug/",
        Some("https://www.scribblehub.com/series/123/slug/"),
    );
    assert!(url.is_some());
    assert!(url.unwrap().contains("toc=2"));
}

#[test]
fn next_toc_page_url_fallback_finds_toc2_without_next_class() {
    let html = r#"<ul id="pagination-mesh-toc"><li class="active"><a class="current" href="?toc=1#content1">1</a></li><li><a href="?toc=2#content1" class="page-link">2</a></li><li><a href="?toc=3#content1" class="page-link">»</a></li></ul>"#;
    let url = next_toc_page_url(
        html,
        "https://www.scribblehub.com/series/55539/trouble-with-horns/",
        Some("https://www.scribblehub.com/series/55539/trouble-with-horns/"),
    );
    assert!(url.is_some(), "fallback should find toc=2 when .next class is missing");
    assert!(url.unwrap().contains("toc=2"));
}

#[test]
fn next_toc_page_url_returns_none_when_no_next() {
    let series_base = "https://www.scribblehub.com/series/123/slug/";
    let html_no_next = r#"<div id="pagination-mesh-toc"></div>"#;
    assert!(next_toc_page_url(html_no_next, series_base, None).is_none());
    let html_disabled =
        r#"<div id="pagination-mesh-toc"><span class="page-link next">Next</span></div>"#;
    assert!(next_toc_page_url(html_disabled, series_base, None).is_none());
    let html_hash =
        r##"<div id="pagination-mesh-toc"><a class="page-link next" href="#">Next</a></div>"##;
    assert!(next_toc_page_url(html_hash, series_base, None).is_none());
}

#[test]
fn next_toc_page_url_is_resolved_against_series() {
    let html = r#"<ul id="pagination-mesh-toc"><li><a href="?toc=3#content1" class="page-link">3</a></li><li><a href="?toc=2#content1">2</a></li></ul>"#;
    assert_eq!(
        next_toc_page_url(
            html,
            "https://www.scribblehub.com/series/5/s/",
            Some("https://www.scribblehub.com/series/5/s/?toc=2")
        )
        .as_deref(),
        Some("https://www.scribblehub.com/series/5/s/?toc=3#content1")
    );
    assert_eq!(
        next_toc_page_url(html, "https://www.scribblehub.com/series/5/s/", None).as_deref(),
        Some("https://www.scribblehub.com/series/5/s/?toc=2#content1")
    );
}

#[test]
fn page_number_of_url() {
    assert_eq!(parse_toc_page_from_url("https://x/series/1/s/"), 1);
    assert_eq!(parse_toc_page_from_url("?toc=2"), 2);
    assert_eq!(parse_toc_page_from_url("?a=1& toc= 17 #content1&toc=3"), 17);
    assert_eq!(parse_toc_page_from_url("?toc=x&toc=4"), 4);
    assert_eq!(parse_toc_page_from_url("?toc=2?toc=3"), 2);
    assert_eq!(parse_toc_page_from_url("?a=b?toc=3"), 1);
    assert_eq!(parse_toc_page_from_url("x?y=1?toc=9"), 1);
    assert_eq!(parse_toc_page_from_url("?toc=4294967296"), 1);
}

#[test]
fn series_id_and_series_url() {
    assert_eq!(
        extract_series_id_from_url("https://www.scribblehub.com/series/862913/hp-the-arcane-thief/")
            .as_deref(),
        Some("862913")
    );
    assert_eq!(extract_series_id_from_url("https://www.scribblehub.com/series/86x/s/"), None);
    assert_eq!(extract_series_id_from_url("https://www.scribblehub.com/series//s/"), None);
    assert_eq!(extract_series_id_from_url("https://www.scribblehub.com/read/1/s/"), None);
    assert_eq!(extract_series_id_from_url("nonsense"), None);
    assert_eq!(
        ensure_series_url("https://www.scribblehub.com/series/1/s/").unwrap(),
        "https://www.scribblehub.com/series/1/s/"
    );
    assert!(matches!(
        ensure_series_url("https://www.scribblehub.com/read/1-s/chapter/2/"),
        Err(ScraperError::ParseStoryPage { .. })
    ));
    assert!(matches!(
        ensure_series_url("https://www.royalroad.com/series/1/s/"),
        Err(ScraperError::ParseStoryPage { .. })
    ));
    assert!(matches!(
        ensure_series_url("https://www.scribblehub.com/profile/1/"),
        Err(ScraperError::ParseStoryPage { .. })
    ));
    assert!(matches!(
        ensure_series_url("not a url"),
        Err(ScraperError::InvalidUrl { .. })
    ));
    assert!(matches!(
        ensure_series_url("mailto:someone@scribblehub.com"),
        Err(ScraperError::InvalidUrl { .. })
    ));
}

#[test]
fn toc_page_rows_are_read_in_order() -> Result<(), ScraperError> {
    let html = r#"<ol class="toc_ol">
<li class="toc_w" order="2"><a class="toc_a" href="/read/1/s/chapter/2/"> Two </a></li>
<li class="toc_w"><a class="toc_a" href="read/1/s/chapter/0/">None</a></li>
<li class="toc_w" order="3"><a class="toc_a">No target</a></li>
<li class="toc_w" order="4"><span>no link</span></li>
<li class="toc_w" order="5"><a class="toc_a" href="/x">  </a></li>
</ol><ol class="toc_ol"><li class="toc_w" order="9"><a class="toc_a" href="/y">Other list</a></li></ol>"#;
    let entries = parse_toc_page(html, SCRIBBLEHUB_BASE)?;
    assert_eq!(
        entries,
        vec![
            (2, "https://www.scribblehub.com/read/1/s/chapter/2/".to_string(), "Two".to_string()),
            (0, "https://www.scribblehub.com/read/1/s/chapter/0/".to_string(), "None".to_string()),
        ]
    );
    assert!(matches!(
        parse_toc_page("<p>nothing</p>", SCRIBBLEHUB_BASE),
        Err(ScraperError::ChapterListParse { .. })
    ));
    Ok(())
}
