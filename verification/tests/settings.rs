use rdrscrape::cli::{
    client_builder, default_file_name, invalid_url_message, settings, unsupported_site_message,
    Args, CliRunError,
};
use rdrscrape::config::Config;
use rdrscrape::epub::{EpubError, EpubVersion};
use rdrscrape::formats::{FormatError, OutputFormat};
use rdrscrape::scraper::{EmptyChapterBehavior, LockedChapterBehavior, ScraperError};

fn args() -> Args {
    Args {
        url: "https://www.royalroad.com/fiction/1/x".to_string(),
        output: None,
        format: OutputFormat::Epub,
        site: None,
        epub_2: false,
        quiet: false,
        verbose: false,
        ncx: false,
        chapters: None,
        resume: None,
        locked_chapters: LockedChapterBehavior::Skip,
        empty_chapters: None,
        user_agent: None,
        delay: None,
        timeout: None,
        dry_run: false,
        validate: false,
    }
}

#[test]
fn cli_run_error_exit_codes() {
    assert_eq!(CliRunError::InvalidInput("x".into()).exit_code(), 1);
    assert_eq!(
        CliRunError::Scraper(ScraperError::UnrecognizedHost { host: "x".into() }).exit_code(),
        2
    );
    assert_eq!(CliRunError::Epub(EpubError::EmptyTitle).exit_code(), 3);
    assert_eq!(CliRunError::Format(FormatError::EmptyAuthor).exit_code(), 3);
    assert_eq!(
        CliRunError::Validation("epubcheck failed".into()).exit_code(),
        3
    );
}

#[test]
fn defaults_without_configuration() {
    let s = settings(&args(), None);
    assert_eq!(s.output_dir, ".");
    assert_eq!(s.user_agent, None);
    assert_eq!(s.delay_secs, 2);
    assert_eq!(s.timeout_secs, 30);
    assert_eq!(s.retry_count, 3);
    assert_eq!(s.retry_backoff_secs, vec![1, 2, 4]);
    assert_eq!(s.empty_chapters, EmptyChapterBehavior::Skip);
    assert!(s.include_toc_page);
    assert_eq!(s.epub_version, EpubVersion::Epub3);
    let empty = settings(&args(), Some(&Config::default()));
    assert_eq!(empty.delay_secs, 2);
    assert_eq!(empty.retry_count, 3);
    assert_eq!(empty.retry_backoff_secs, vec![1, 2, 4]);
    assert_eq!(empty.output_dir, ".");
}

#[test]
fn configuration_overrides_defaults_and_arguments_override_configuration() {
    let config = Config {
        output_dir: Some("out".to_string()),
        user_agent: Some("Config/1.0".to_string()),
        request_delay_secs: Some(3),
        timeout_secs: Some(60),
        toc_page: Some(false),
        retry_count: Some(0),
        retry_backoff_secs: Some(vec![1, 2, 4, 8]),
        empty_chapters: Some("PlaceHolder".to_string()),
    };
    let s = settings(&args(), Some(&config));
    assert_eq!(s.output_dir, "out");
    assert_eq!(s.user_agent.as_deref(), Some("Config/1.0"));
    assert_eq!(s.delay_secs, 3);
    assert_eq!(s.timeout_secs, 60);
    assert_eq!(s.retry_count, 1);
    assert_eq!(s.retry_backoff_secs, vec![1, 2, 4, 8]);
    assert_eq!(s.empty_chapters, EmptyChapterBehavior::Placeholder);
    assert!(!s.include_toc_page);

    let mut a = args();
    a.user_agent = Some("Arg/2.0".to_string());
    a.delay = Some(0);
    a.timeout = Some(5);
    a.empty_chapters = Some(EmptyChapterBehavior::Fail);
    a.epub_2 = true;
    let s = settings(&a, Some(&config));
    assert_eq!(s.user_agent.as_deref(), Some("Arg/2.0"));
    assert_eq!(s.delay_secs, 0);
    assert_eq!(s.timeout_secs, 5);
    assert_eq!(s.empty_chapters, EmptyChapterBehavior::Fail);
    assert_eq!(s.epub_version, EpubVersion::Epub2);

    let odd = Config { empty_chapters: Some("sometimes".to_string()), ..Config::default() };
    assert_eq!(settings(&args(), Some(&odd)).empty_chapters, EmptyChapterBehavior::Skip);
}

#[test]
fn client_is_built_from_the_settings() {
    let mut a = args();
    a.user_agent = Some("Arg/2.0".to_string());
    a.delay = Some(7);
    let s = settings(&a, None);
    let client = client_builder(&s).build();
    assert_eq!(client.user_agent(), "Arg/2.0");
    assert_eq!(client.delay_secs(), 7);
    assert_eq!(client.timeout_secs(), 30);
    assert_eq!(client.retry_count(), 3);
    let plain = client_builder(&settings(&args(), None)).build();
    assert_eq!(
        plain.user_agent(),
        "Mozilla/5.0 (compatible; rdrscrape/0.1; +https://github.com/rdrscrape)"
    );
}

#[test]
fn file_names_and_messages() {
    assert_eq!(default_file_name("My Book", OutputFormat::Epub), "my-book.epub");
    assert_eq!(default_file_name("", OutputFormat::Markdown), "book.md");
    assert_eq!(default_file_name("A/B: c", OutputFormat::Text), "a-b-c.txt");
    assert_eq!(
        invalid_url_message("x", "relative URL without a base"),
        "Expected a story URL. Example: https://www.royalroad.com/fiction/12345/... Invalid: x: relative URL without a base"
    );
    assert_eq!(
        unsupported_site_message("example.com"),
        "Unsupported site: example.com. Use --site royalroad or scribblehub to override, or provide a Royal Road / Scribble Hub URL."
    );
}
