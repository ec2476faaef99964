use rdrscrape::scraper::client::{PoliteClient, PoliteClientBuilder, Retry};
use rdrscrape::scraper::error::ScraperError;

#[test]
fn default_client_settings() {
    let client = PoliteClient::new();
    assert_eq!(
        client.user_agent(),
        "Mozilla/5.0 (compatible; rdrscrape/0.1; +https://github.com/rdrscrape)"
    );
    assert_eq!(client.delay_secs(), 4);
    assert_eq!(client.timeout_secs(), 30);
    assert_eq!(client.retry_count(), 5);
}

#[test]
fn builder_sets_each_value() {
    let client = PoliteClient::builder()
        .user_agent("Custom/1.0".to_string())
        .delay_secs(1)
        .timeout_secs(60)
        .retry_count(0)
        .retry_backoff_secs(vec![3, 5])
        .build();
    assert_eq!(client.user_agent(), "Custom/1.0");
    assert_eq!(client.delay_secs(), 1);
    assert_eq!(client.timeout_secs(), 60);
    assert_eq!(client.retry_count(), 1);
    let many = PoliteClientBuilder::default().retry_count(7).build();
    assert_eq!(many.retry_count(), 7);
}

#[test]
fn server_errors_are_retried_with_the_schedule() {
    let client = PoliteClient::new();
    assert_eq!(client.after_response(0, 500), Retry::WaitSecs(1));
    assert_eq!(client.after_response(1, 503), Retry::WaitSecs(2));
    assert_eq!(client.after_response(2, 599), Retry::WaitSecs(4));
    assert_eq!(client.after_response(3, 502), Retry::WaitSecs(8));
    // the last attempt is delivered whatever it is
    assert_eq!(client.after_response(4, 500), Retry::Deliver);
    assert_eq!(client.after_response(9, 500), Retry::Deliver);
}

#[test]
fn rate_limit_uses_the_longer_schedule() {
    let client = PoliteClient::builder().retry_count(8).build();
    assert_eq!(client.after_response(0, 429), Retry::WaitSecs(30));
    assert_eq!(client.after_response(1, 429), Retry::WaitSecs(60));
    assert_eq!(client.after_response(2, 429), Retry::WaitSecs(90));
    assert_eq!(client.after_response(3, 429), Retry::WaitSecs(120));
    // once the schedule is used up its last value repeats
    assert_eq!(client.after_response(4, 429), Retry::WaitSecs(120));
    assert_eq!(client.after_response(6, 429), Retry::WaitSecs(120));
    assert_eq!(client.after_response(7, 429), Retry::Deliver);
    assert_eq!(client.after_response(5, 500), Retry::WaitSecs(8));
}

#[test]
fn other_statuses_are_delivered_at_once() {
    let client = PoliteClient::new();
    for status in [200u16, 204, 301, 400, 403, 404, 428, 430, 499, 600] {
        assert_eq!(client.after_response(0, status), Retry::Deliver);
    }
}

#[test]
fn transport_failures_are_retried_when_transient() {
    let client = PoliteClient::builder().retry_backoff_secs(vec![7]).retry_count(3).build();
    assert_eq!(client.after_failure(0, true, false), Retry::WaitSecs(7));
    assert_eq!(client.after_failure(1, false, true), Retry::WaitSecs(7));
    assert_eq!(client.after_failure(2, true, true), Retry::Deliver);
    assert_eq!(client.after_failure(0, false, false), Retry::Deliver);
}

#[test]
fn empty_schedule_stands_for_doubling() {
    let client = PoliteClient::builder().retry_backoff_secs(vec![]).retry_count(8).build();
    let waits: Vec<Retry> = (0..8).map(|a| client.after_failure(a, true, false)).collect();
    assert_eq!(
        waits,
        vec![
            Retry::WaitSecs(1),
            Retry::WaitSecs(2),
            Retry::WaitSecs(4),
            Retry::WaitSecs(8),
            Retry::WaitSecs(16),
            Retry::WaitSecs(16),
            Retry::WaitSecs(16),
            Retry::Deliver
        ]
    );
    let single = PoliteClient::builder().retry_backoff_secs(vec![]).retry_count(1).build();
    assert_eq!(single.after_failure(0, true, false), Retry::Deliver);
}

#[test]
fn pause_is_what_is_left_of_the_delay() {
    let client = PoliteClient::builder().delay_secs(4).build();
    assert_eq!(client.pause_before_request(None), (0, 0));
    assert_eq!(client.pause_before_request(Some((0, 0))), (4, 0));
    assert_eq!(client.pause_before_request(Some((1, 0))), (3, 0));
    assert_eq!(client.pause_before_request(Some((1, 250_000_000))), (2, 750_000_000));
    assert_eq!(client.pause_before_request(Some((3, 999_999_999))), (0, 1));
    assert_eq!(client.pause_before_request(Some((4, 0))), (0, 0));
    assert_eq!(client.pause_before_request(Some((100, 5))), (0, 0));
}

#[test]
fn error_messages() {
    assert_eq!(
        ScraperError::InvalidUrl { input: "x".to_string(), reason: "bad".to_string() }.message(),
        "Invalid URL: x: bad"
    );
    assert_eq!(
        ScraperError::UnrecognizedHost { host: "example.com".to_string() }.message(),
        "Could not detect site from URL host 'example.com'. Use --site royalroad or --site scribblehub."
    );
    assert_eq!(
        ScraperError::ResumeMismatch { resumed: "a".to_string(), requested: "b".to_string() }
            .message(),
        "Resume file is for a different URL (a). Use the same URL as the first run (b)."
    );
    assert_eq!(
        ScraperError::Network { url: "u".to_string(), source: "down".to_string() }.message(),
        "Network error: could not reach u: down"
    );
    assert_eq!(
        ScraperError::HttpStatus { status: 503, url: "u".to_string(), context: None }.message(),
        "HTTP 503 when fetching: u"
    );
    assert_eq!(
        ScraperError::Redirect { url: "u".to_string(), reason: "loop".to_string() }.message(),
        "Redirect error: u: loop"
    );
    assert_eq!(ScraperError::Tls { source: "cert".to_string() }.message(), "TLS error: cert");
    assert_eq!(
        ScraperError::BodyRead { source: "cut".to_string() }.message(),
        "Failed to read response body: cut"
    );
    assert_eq!(
        ScraperError::ParseStoryPage { message: "m".to_string() }.message(),
        "Could not parse story page: m"
    );
    assert_eq!(
        ScraperError::ParseChapter { index: 12, url: "u".to_string() }.message(),
        "Could not parse chapter 12: missing content container at u."
    );
    assert_eq!(
        ScraperError::EmptyChapter { index: 0, url: "u".to_string() }.message(),
        "Chapter 0 has no content at u."
    );
    assert_eq!(
        ScraperError::Encoding { url: "u".to_string(), reason: "r".to_string() }.message(),
        "Invalid encoding or HTML at u: r"
    );
    assert_eq!(
        ScraperError::ChapterListParse { reason: "r".to_string() }.message(),
        "Could not parse chapter list on story page: r"
    );
    assert_eq!(
        ScraperError::EmptyChapterList.message(),
        "Story page has no chapters (possibly deleted or access restricted)."
    );
    assert_eq!(
        ScraperError::AccessBlocked { url: "u".to_string() }.message(),
        "Access blocked or restricted at u. If using a browser you may need cookies or captcha; scripted access may be limited."
    );
    assert_eq!(
        ScraperError::NoChaptersRetrieved.message(),
        "No chapters could be retrieved (all locked, missing, or failed)."
    );
    assert_eq!(
        ScraperError::Cancelled.message(),
        "The crawl was cancelled before it was complete."
    );
    assert_eq!(
        ScraperError::LockedChaptersNotAllowed { count: 4294967295 }.message(),
        "Fiction has 4294967295 locked (premium) chapter(s). Use --locked-chapters skip or placeholder to include only free chapters or add placeholders."
    );
}
