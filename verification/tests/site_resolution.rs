use rdrscrape::scraper::error::ScraperError;
use rdrscrape::scraper::{resolve_site, strip_title_site_suffix, Site};

#[test]
fn strip_title_site_suffix_removes_trailing_suffix_only() {
    assert_eq!(
        strip_title_site_suffix(
            "Chapter 1 - The Beginning | Scribble Hub",
            &[" | Scribble Hub", " - Scribble Hub"]
        ),
        "Chapter 1 - The Beginning"
    );
    assert_eq!(
        strip_title_site_suffix(
            "Chapter 1 | Part 2 | Scribble Hub",
            &[" | Scribble Hub", " - Scribble Hub"]
        ),
        "Chapter 1 | Part 2"
    );
    assert_eq!(
        strip_title_site_suffix(
            "1. Good Morning - Brother - Book _ Royal Road",
            &[" _ Royal Road", " - Royal Road", " | Royal Road"]
        ),
        "1. Good Morning - Brother - Book"
    );
}

#[test]
fn site_detection_royalroad() -> Result<(), ScraperError> {
    let site = resolve_site("https://www.royalroad.com/fiction/123/slug", None)?;
    assert_eq!(site, Site::RoyalRoad);
    Ok(())
}

#[test]
fn site_detection_scribblehub() -> Result<(), ScraperError> {
    let site = resolve_site("https://www.scribblehub.com/series/1/slug/", None)?;
    assert_eq!(site, Site::ScribbleHub);
    Ok(())
}

#[test]
fn site_detection_unrecognized_host_errors() -> Result<(), String> {
    let result = resolve_site("https://example.com/foo", None);
    match &result {
        Err(ScraperError::UnrecognizedHost { host }) if host == "example.com" => Ok(()),
        _ => Err(format!("expected UnrecognizedHost, got {:?}", result)),
    }
}

#[test]
fn site_detection_invalid_url_errors() -> Result<(), String> {
    let result = resolve_site("not-a-url", None);
    match &result {
        Err(ScraperError::InvalidUrl { input, .. }) if input == "not-a-url" => Ok(()),
        _ => Err(format!("expected InvalidUrl, got {:?}", result)),
    }
}

#[test]
fn site_override_ignores_url_host() -> Result<(), ScraperError> {
    let site = resolve_site("https://example.com/foo", Some(Site::RoyalRoad))?;
    assert_eq!(site, Site::RoyalRoad);
    Ok(())
}
