use rdrscrape::model::{Book, Chapter};
use rdrscrape::scraper::crawl::{Action, Crawl, Stage};
use rdrscrape::scraper::entry::Fetched;
use rdrscrape::scraper::error::ScraperError;
use rdrscrape::scraper::{EmptyChapterBehavior, LockedChapterBehavior, ScrapeOptions, Site};

const STORY: &str = "https://www.royalroad.com/fiction/1/story";

fn ok(body: String) -> Fetched {
    Fetched::Response { status: 200, body: Ok(body) }
}

fn chapter_url(n: u32) -> String {
    format!("https://www.royalroad.com/fiction/1/story/chapter/{}/c{}", n, n)
}

/// A story page listing the chapters of the given orders (0-based), in the given order of
/// appearance; `locked` holds the orders of locked chapters.
fn index_page(orders: &[u32], locked: &[u32]) -> String {
    let mut items = Vec::new();
    for o in orders {
        items.push(format!(
            r#"{{"id":{},"title":"Title {}","url":"/fiction/1/story/chapter/{}/c{}","order":{},"isUnlocked":{}}}"#,
            100 + o,
            o + 1,
            o + 1,
            o + 1,
            o,
            !locked.contains(o)
        ));
    }
    format!(
        r#"<html><head><script type="application/ld+json">{{"@type":"Book","name":"Story","author":{{"name":"Author"}},"description":"<p>About</p>","image":"https://cdn/c.png"}}</script></head><body><script>window.chapters = [{}];</script></body></html>"#,
        items.join(",")
    )
}

fn chapter_page(n: u32) -> String {
    format!(
        r#"<html><head><title>T{} - Royal Road</title></head><body><h1 class="font-white break-word">Heading {}</h1><div class="chapter-inner chapter-content"><p>Body {}</p></div></body></html>"#,
        n, n, n
    )
}

/// Runs a crawl to its end against `net`; returns the outcome, the URLs asked for in order,
/// and the (index, done, total) reported for each chapter added.
fn run(
    crawl: &mut Crawl,
    net: &dyn Fn(&str) -> Fetched,
) -> (Result<Book, ScraperError>, Vec<String>, Vec<(u32, u32, u32)>) {
    let mut asked = Vec::new();
    let mut added = Vec::new();
    let mut reply: Option<Fetched> = None;
    for _ in 0..10_000 {
        match crawl.step(reply.take()) {
            Action::Get { url } => {
                reply = Some(net(&url));
                asked.push(url);
            }
            Action::PostForm { url, .. } => {
                reply = Some(net(&url));
                asked.push(url);
            }
            Action::Listed { .. } | Action::Skipped { .. } => {}
            Action::Appended { index, done, total } => {
                assert!(crawl.book().chapters.iter().any(|c| c.index == index));
                added.push((index, done, total));
            }
            Action::Finished => return (Ok(crawl.book().clone()), asked, added),
            Action::Failed(e) => return (Err(e), asked, added),
            Action::Idle => panic!("stepped a crawl that was over"),
        }
    }
    panic!("crawl did not end");
}

fn options<'a>() -> ScrapeOptions<'a> {
    ScrapeOptions {
        chapter_range: None,
        initial_book: None,
        locked_behavior: None,
        empty_chapter_behavior: None,
        toc_only: false,
    }
}

fn indices(book: &Book) -> Vec<u32> {
    book.chapters.iter().map(|c| c.index).collect()
}

fn healthy_net(orders: &'static [u32], locked: &'static [u32]) -> impl Fn(&str) -> Fetched {
    move |url: &str| {
        if url == STORY {
            return ok(index_page(orders, locked));
        }
        for n in 1..=20u32 {
            if url == chapter_url(n) {
                return ok(chapter_page(n));
            }
        }
        Fetched::Response { status: 404, body: Ok(String::new()) }
    }
}

#[test]
fn crawl_from_scratch_fetches_every_chapter_in_order() {
    let mut crawl = Crawl::new(Site::RoyalRoad, STORY, &options()).unwrap();
    assert_eq!(crawl.stage(), Stage::Start);
    let (result, asked, added) = run(&mut crawl, &healthy_net(&[2, 0, 1], &[]));
    let book = result.unwrap();
    assert_eq!(book.title, "Story");
    assert_eq!(book.author, "Author");
    assert_eq!(book.description.as_deref(), Some("About"));
    assert_eq!(book.cover_url.as_deref(), Some("https://cdn/c.png"));
    assert_eq!(book.source_url.as_deref(), Some(STORY));
    assert_eq!(indices(&book), vec![1, 2, 3]);
    assert_eq!(book.chapters[0].title, "Heading 1");
    assert_eq!(book.chapters[0].body, "<p>Body 1</p>");
    assert_eq!(
        asked,
        vec![STORY.to_string(), chapter_url(1), chapter_url(2), chapter_url(3)]
    );
    assert_eq!(added, vec![(1, 1, 3), (2, 2, 3), (3, 3, 3)]);
    assert_eq!(crawl.stage(), Stage::Done);
    assert_eq!(crawl.total(), 3);
    assert_eq!(crawl.done(), 3);
    assert!(matches!(crawl.step(None), Action::Idle));
}

#[test]
fn resume_skips_present_chapters_and_equals_merged_fresh_crawl() {
    // a first, partial run: chapters 1 and 2 only
    let mut first = Crawl::new(
        Site::RoyalRoad,
        STORY,
        &ScrapeOptions { chapter_range: Some((1, 2)), ..options() },
    )
    .unwrap();
    let (partial, _, _) = run(&mut first, &healthy_net(&[0, 1, 2, 3], &[]));
    let partial = partial.unwrap();
    assert_eq!(indices(&partial), vec![1, 2]);

    // the resumed run asks for the index page and for chapters 3 and 4 only
    let mut resumed = Crawl::new(
        Site::RoyalRoad,
        "https://www.royalroad.com/fiction/1/story/",
        &ScrapeOptions { initial_book: Some(&partial), ..options() },
    );
    assert!(matches!(resumed, Err(ScraperError::ResumeMismatch { .. })) == false);
    let resumed_crawl = resumed.as_mut().unwrap();
    let net = healthy_net(&[0, 1, 2, 3], &[]);
    let slash_net = |url: &str| {
        if url == "https://www.royalroad.com/fiction/1/story/" {
            net(STORY)
        } else {
            net(url)
        }
    };
    let (book, asked, added) = run(resumed_crawl, &slash_net);
    let book = book.unwrap();
    assert_eq!(
        asked,
        vec![
            "https://www.royalroad.com/fiction/1/story/".to_string(),
            chapter_url(3),
            chapter_url(4)
        ]
    );
    assert_eq!(added, vec![(3, 1, 4), (4, 2, 4)]);

    // a crawl from scratch of chapters 3 and 4, merged into the partial book
    let mut fresh = Crawl::new(
        Site::RoyalRoad,
        STORY,
        &ScrapeOptions { chapter_range: Some((3, 4)), ..options() },
    )
    .unwrap();
    let (fresh_book, _, _) = run(&mut fresh, &healthy_net(&[0, 1, 2, 3], &[]));
    let mut merged = partial.clone();
    for c in fresh_book.unwrap().chapters {
        merged.insert_chapter(c);
    }
    assert_eq!(indices(&book), vec![1, 2, 3, 4]);
    assert_eq!(indices(&merged), vec![1, 2, 3, 4]);
    for (a, b) in book.chapters.iter().zip(merged.chapters.iter()) {
        assert_eq!(a.title, b.title);
        assert_eq!(a.index, b.index);
        assert_eq!(a.body, b.body);
    }
    assert_eq!(book.title, partial.title);
}

#[test]
fn resume_from_another_url_is_refused_before_any_request() {
    let other = Book {
        title: "T".to_string(),
        author: "A".to_string(),
        description: None,
        cover_url: None,
        chapters: vec![],
        source_url: Some("https://www.royalroad.com/fiction/2/other".to_string()),
    };
    match Crawl::new(
        Site::RoyalRoad,
        STORY,
        &ScrapeOptions { initial_book: Some(&other), ..options() },
    ) {
        Err(ScraperError::ResumeMismatch { resumed, requested }) => {
            assert_eq!(resumed, "https://www.royalroad.com/fiction/2/other");
            assert_eq!(requested, STORY);
        }
        _ => panic!("expected ResumeMismatch"),
    }
}

#[test]
fn chapter_url_is_refused_as_story_url() {
    match Crawl::new(
        Site::RoyalRoad,
        "https://www.royalroad.com/fiction/1/story/chapter/5/x",
        &options(),
    ) {
        Err(ScraperError::ParseStoryPage { message }) => {
            assert!(message.starts_with("Expected a fiction (index) URL, not a chapter URL."))
        }
        _ => panic!("expected ParseStoryPage"),
    }
    assert!(matches!(
        Crawl::new(Site::RoyalRoad, "::", &options()),
        Err(ScraperError::InvalidUrl { .. })
    ));
}

#[test]
fn locked_fail_aborts_before_any_chapter_fetch() {
    let mut crawl = Crawl::new(
        Site::RoyalRoad,
        STORY,
        &ScrapeOptions { locked_behavior: Some(LockedChapterBehavior::Fail), ..options() },
    )
    .unwrap();
    let (result, asked, added) = run(&mut crawl, &healthy_net(&[0, 1, 2], &[1, 2]));
    match result {
        Err(ScraperError::LockedChaptersNotAllowed { count }) => assert_eq!(count, 2),
        other => panic!("expected LockedChaptersNotAllowed, got {:?}", other),
    }
    assert_eq!(asked, vec![STORY.to_string()]);
    assert!(added.is_empty());
}

#[test]
fn locked_fail_without_locked_chapters_crawls() {
    let mut crawl = Crawl::new(
        Site::RoyalRoad,
        STORY,
        &ScrapeOptions { locked_behavior: Some(LockedChapterBehavior::Fail), ..options() },
    )
    .unwrap();
    let (result, _, _) = run(&mut crawl, &healthy_net(&[0, 1], &[]));
    assert_eq!(indices(&result.unwrap()), vec![1, 2]);
}

#[test]
fn locked_skip_and_placeholder_never_abort() {
    let mut skip = Crawl::new(Site::RoyalRoad, STORY, &options()).unwrap();
    let (result, asked, _) = run(&mut skip, &healthy_net(&[0, 1, 2], &[1]));
    assert_eq!(indices(&result.unwrap()), vec![1, 3]);
    assert_eq!(asked, vec![STORY.to_string(), chapter_url(1), chapter_url(3)]);

    let mut placeholder = Crawl::new(
        Site::RoyalRoad,
        STORY,
        &ScrapeOptions {
            locked_behavior: Some(LockedChapterBehavior::Placeholder),
            ..options()
        },
    )
    .unwrap();
    let (result, asked, added) = run(&mut placeholder, &healthy_net(&[0, 1, 2], &[1]));
    let book = result.unwrap();
    assert_eq!(indices(&book), vec![1, 2, 3]);
    assert_eq!(book.chapters[1].title, "Title 2 (locked)");
    assert_eq!(
        book.chapters[1].body,
        "<p>This chapter is locked (premium) and could not be retrieved.</p>"
    );
    assert_eq!(asked, vec![STORY.to_string(), chapter_url(1), chapter_url(3)]);
    assert_eq!(added, vec![(1, 1, 3), (2, 2, 3), (3, 3, 3)]);
}

#[test]
fn range_filter_yields_exactly_the_range_in_ascending_order() {
    let mut crawl = Crawl::new(
        Site::RoyalRoad,
        STORY,
        &ScrapeOptions { chapter_range: Some((3, 5)), ..options() },
    )
    .unwrap();
    let (result, asked, added) =
        run(&mut crawl, &healthy_net(&[7, 3, 9, 0, 4, 1, 8, 2, 6, 5], &[]));
    assert_eq!(indices(&result.unwrap()), vec![3, 4, 5]);
    assert_eq!(
        asked,
        vec![STORY.to_string(), chapter_url(3), chapter_url(4), chapter_url(5)]
    );
    // the total is that of the whole table of contents
    assert_eq!(added, vec![(3, 1, 10), (4, 2, 10), (5, 3, 10)]);
}

#[test]
fn one_failed_chapter_is_the_only_one_omitted() {
    let healthy = healthy_net(&[0, 1, 2, 3], &[]);
    let net = move |url: &str| {
        if url == chapter_url(3) {
            Fetched::Failed { reason: "connection reset".to_string() }
        } else {
            healthy(url)
        }
    };
    let mut crawl = Crawl::new(Site::RoyalRoad, STORY, &options()).unwrap();
    let (result, asked, _) = run(&mut crawl, &net);
    assert_eq!(indices(&result.unwrap()), vec![1, 2, 4]);
    assert_eq!(asked.len(), 5);
}

#[test]
fn chapter_with_bad_status_or_unreadable_body_is_omitted() {
    let healthy = healthy_net(&[0, 1, 2], &[]);
    let net = move |url: &str| {
        if url == chapter_url(1) {
            Fetched::Response { status: 503, body: Ok(chapter_page(1)) }
        } else if url == chapter_url(2) {
            Fetched::Response { status: 200, body: Err("decode".to_string()) }
        } else {
            healthy(url)
        }
    };
    let mut crawl = Crawl::new(
        Site::RoyalRoad,
        STORY,
        &ScrapeOptions { empty_chapter_behavior: Some(EmptyChapterBehavior::Fail), ..options() },
    )
    .unwrap();
    let (result, _, _) = run(&mut crawl, &net);
    assert_eq!(indices(&result.unwrap()), vec![3]);
}

#[test]
fn all_chapters_failing_is_no_chapters_retrieved() {
    let healthy = healthy_net(&[0, 1], &[]);
    let net = move |url: &str| {
        if url == STORY {
            healthy(url)
        } else {
            Fetched::Failed { reason: "down".to_string() }
        }
    };
    let mut crawl = Crawl::new(Site::RoyalRoad, STORY, &options()).unwrap();
    let (result, _, _) = run(&mut crawl, &net);
    assert!(matches!(result, Err(ScraperError::NoChaptersRetrieved)));
}

fn empty_pages_net(container: bool) -> impl Fn(&str) -> Fetched {
    let healthy = healthy_net(&[0, 1], &[]);
    move |url: &str| {
        if url == chapter_url(2) {
            if container {
                ok(r#"<html><head><title>Two - Royal Road</title></head><body><div class="chapter-inner chapter-content"></div></body></html>"#.to_string())
            } else {
                ok("<html><head><title>Two - Royal Road</title></head><body></body></html>".to_string())
            }
        } else {
            healthy(url)
        }
    }
}

fn crawl_with_empty_policy(
    policy: EmptyChapterBehavior,
    container: bool,
) -> Result<Book, ScraperError> {
    let mut crawl = Crawl::new(
        Site::RoyalRoad,
        STORY,
        &ScrapeOptions { empty_chapter_behavior: Some(policy), ..options() },
    )
    .unwrap();
    run(&mut crawl, &empty_pages_net(container)).0
}

#[test]
fn empty_chapter_policy_is_the_same_for_missing_and_empty_container() {
    for container in [false, true] {
        let skipped = crawl_with_empty_policy(EmptyChapterBehavior::Skip, container).unwrap();
        assert_eq!(indices(&skipped), vec![1]);

        let held = crawl_with_empty_policy(EmptyChapterBehavior::Placeholder, container).unwrap();
        assert_eq!(indices(&held), vec![1, 2]);
        assert_eq!(held.chapters[1].title, "Chapter 2 (unable to parse)");
        assert_eq!(
            held.chapters[1].body,
            "<p>This chapter could not be parsed (missing content container).</p>"
        );

        match crawl_with_empty_policy(EmptyChapterBehavior::Fail, container) {
            Err(ScraperError::ParseChapter { index, url }) => {
                assert_eq!(index, 2);
                assert_eq!(url, chapter_url(2));
            }
            other => panic!("expected ParseChapter, got {:?}", other),
        }
    }
}

#[test]
fn index_page_failures_are_fatal() {
    let mut crawl = Crawl::new(Site::RoyalRoad, STORY, &options()).unwrap();
    let (result, asked, _) =
        run(&mut crawl, &|_| Fetched::Response { status: 404, body: Ok(String::new()) });
    match result {
        Err(ScraperError::HttpStatus { status, url, context }) => {
            assert_eq!(status, 404);
            assert_eq!(url, STORY);
            assert_eq!(context.as_deref(), Some("story page"));
        }
        other => panic!("expected HttpStatus, got {:?}", other),
    }
    assert_eq!(asked.len(), 1);

    let mut crawl = Crawl::new(Site::RoyalRoad, STORY, &options()).unwrap();
    let (result, _, _) = run(&mut crawl, &|_| Fetched::Failed { reason: "dns".to_string() });
    match result {
        Err(ScraperError::Network { url, source }) => {
            assert_eq!(url, STORY);
            assert_eq!(source, "dns");
        }
        other => panic!("expected Network, got {:?}", other),
    }

    let mut crawl = Crawl::new(Site::RoyalRoad, STORY, &options()).unwrap();
    let (result, _, _) =
        run(&mut crawl, &|_| Fetched::Response { status: 200, body: Err("cut".to_string()) });
    assert!(matches!(result, Err(ScraperError::BodyRead { .. })));

    let mut crawl = Crawl::new(Site::RoyalRoad, STORY, &options()).unwrap();
    let (result, _, _) = run(&mut crawl, &|_| ok("<html></html>".to_string()));
    assert!(matches!(result, Err(ScraperError::ChapterListParse { .. })));

    let mut crawl = Crawl::new(Site::RoyalRoad, STORY, &options()).unwrap();
    let (result, _, _) =
        run(&mut crawl, &|_| ok("<script>window.chapters = [];</script>".to_string()));
    assert!(matches!(result, Err(ScraperError::EmptyChapterList)));

    // a step that is owed an answer and gets none takes the request as failed
    let mut crawl = Crawl::new(Site::RoyalRoad, STORY, &options()).unwrap();
    assert!(matches!(crawl.step(None), Action::Get { .. }));
    assert!(matches!(crawl.step(None), Action::Failed(ScraperError::Network { .. })));
}

#[test]
fn toc_only_lists_chapters_without_fetching_bodies() {
    let mut crawl = Crawl::new(
        Site::RoyalRoad,
        STORY,
        &ScrapeOptions {
            toc_only: true,
            chapter_range: Some((1, 3)),
            locked_behavior: Some(LockedChapterBehavior::Placeholder),
            ..options()
        },
    )
    .unwrap();
    let (result, asked, added) = run(&mut crawl, &healthy_net(&[0, 1, 2, 3], &[1]));
    let book = result.unwrap();
    assert_eq!(asked, vec![STORY.to_string()]);
    assert!(added.is_empty());
    assert_eq!(indices(&book), vec![1, 2, 3]);
    assert_eq!(book.chapters[0].title, "Title 1");
    assert_eq!(book.chapters[0].body, "");
    assert_eq!(book.chapters[1].title, "Title 2 (locked)");
    assert_eq!(book.chapters[1].body, "");
    assert_eq!(crawl.total(), 4);
}

#[test]
fn resumed_book_out_of_order_is_put_in_order() {
    let chapter = |index: u32, title: &str| Chapter {
        title: title.to_string(),
        index,
        body: format!("<p>{}</p>", title),
    };
    let loaded = Book {
        title: "Saved".to_string(),
        author: "A".to_string(),
        description: None,
        cover_url: None,
        chapters: vec![chapter(3, "three"), chapter(1, "one"), chapter(3, "three again")],
        source_url: None,
    };
    let normal = loaded.normalized_copy();
    assert_eq!(indices(&normal), vec![1, 3]);
    assert_eq!(normal.chapters[1].title, "three");
    assert_eq!(normal.title, "Saved");
    let mut crawl = Crawl::new(
        Site::RoyalRoad,
        STORY,
        &ScrapeOptions { initial_book: Some(&loaded), ..options() },
    )
    .unwrap();
    let (result, asked, _) = run(&mut crawl, &healthy_net(&[0, 1, 2], &[]));
    let book = result.unwrap();
    assert_eq!(indices(&book), vec![1, 2, 3]);
    assert_eq!(book.chapters[0].title, "one");
    assert_eq!(book.chapters[1].title, "Heading 2");
    assert_eq!(book.chapters[2].title, "three");
    assert_eq!(book.title, "Saved");
    assert_eq!(asked, vec![STORY.to_string(), chapter_url(2)]);
}

#[test]
fn cancelled_crawl_is_idle_and_keeps_its_chapters() {
    let net = healthy_net(&[0, 1, 2], &[]);
    let mut crawl = Crawl::new(Site::RoyalRoad, STORY, &options()).unwrap();
    let mut reply: Option<Fetched> = None;
    loop {
        match crawl.step(reply.take()) {
            Action::Get { url } => reply = Some(net(&url)),
            Action::Appended { .. } => break,
            Action::Listed { .. } => {}
            other => panic!("unexpected {:?}", other),
        }
    }
    crawl.cancel();
    assert_eq!(crawl.stage(), Stage::Done);
    assert!(matches!(crawl.step(None), Action::Idle));
    assert_eq!(indices(&crawl.into_book()), vec![1]);
}

#[test]
fn book_insert_keeps_chapters_sorted() {
    let mut book = Book {
        title: "T".to_string(),
        author: "A".to_string(),
        description: None,
        cover_url: None,
        chapters: vec![],
        source_url: None,
    };
    for index in [5u32, 2, 9, 1, 7] {
        assert!(!book.has_chapter(index));
        book.insert_chapter(Chapter {
            title: format!("c{}", index),
            index,
            body: String::new(),
        });
        assert!(book.has_chapter(index));
        assert!(book.is_well_formed());
    }
    assert_eq!(indices(&book), vec![1, 2, 5, 7, 9]);
    let copy = book.snapshot();
    assert_eq!(indices(&copy), vec![1, 2, 5, 7, 9]);
    assert_eq!(copy.chapters[2].title, "c5");
    book.chapters.swap(0, 1);
    assert!(!book.is_well_formed());
    book.chapters[0].index = 1;
    assert!(!book.is_well_formed());
}
