use rdrscrape::epub::documents::{
    chapter_document, cover_document, cover_image_name, epub_files, nav_document, ncx_document,
    package_document, toc_page_document,
};
use rdrscrape::epub::{cover_url_to_fetch, is_jpeg_content_type, Cover, EpubVersion};
use rdrscrape::formats::{
    body_to_markdown, is_paragraphs_only, render_html, render_markdown, render_text, FormatError,
};
use rdrscrape::model::{Book, Chapter};

fn minimal_book() -> Book {
    Book {
        title: "Test Book".to_string(),
        author: "Test Author".to_string(),
        description: None,
        cover_url: None,
        chapters: vec![Chapter {
            title: "Chapter 1".to_string(),
            index: 1,
            body: "<p>First paragraph.</p>".to_string(),
        }],
        source_url: None,
    }
}

fn described_book() -> Book {
    Book {
        title: "Test Book".to_string(),
        author: "Test Author".to_string(),
        description: Some("A test.".to_string()),
        cover_url: None,
        chapters: vec![Chapter {
            title: "Chapter One".to_string(),
            index: 1,
            body: "<p>First paragraph.</p><p>Second paragraph.</p>".to_string(),
        }],
        source_url: None,
    }
}

fn names(book: &Book, version: EpubVersion, cover: Cover, ncx: bool, toc_page: bool) -> Vec<String> {
    epub_files(book, version, cover, ncx, toc_page).into_iter().map(|f| f.name).collect()
}

fn text_of(book: &Book, version: EpubVersion, ncx: bool, toc_page: bool, name: &str) -> String {
    epub_files(book, version, Cover::NoCover, ncx, toc_page)
        .into_iter()
        .find(|f| f.name == name)
        .map(|f| f.text)
        .unwrap()
}

#[test]
fn write_epub_epub3_no_cover_produces_valid_zip() {
    let book = minimal_book();
    let names = names(&book, EpubVersion::Epub3, Cover::NoCover, false, true);
    assert!(names.contains(&"mimetype".to_string()));
    assert!(names.contains(&"META-INF/container.xml".to_string()));
    assert!(names.contains(&"OEBPS/content.opf".to_string()));
    assert!(names.contains(&"OEBPS/nav.xhtml".to_string()));
    assert!(names.contains(&"OEBPS/chapter-1.xhtml".to_string()));
    assert!(!names.iter().any(|n| n == "OEBPS/toc.ncx"));
}

#[test]
fn write_epub_epub3_with_ncx_includes_toc_ncx() {
    let book = minimal_book();
    let names = names(&book, EpubVersion::Epub3, Cover::NoCover, true, true);
    assert!(names.contains(&"OEBPS/toc.ncx".to_string()));
}

#[test]
fn write_epub_epub2_no_cover_produces_valid_zip() {
    let book = minimal_book();
    let names = names(&book, EpubVersion::Epub2, Cover::NoCover, false, true);
    assert!(names.contains(&"mimetype".to_string()));
    assert!(names.contains(&"META-INF/container.xml".to_string()));
    assert!(names.contains(&"OEBPS/content.opf".to_string()));
    assert!(names.contains(&"OEBPS/toc.ncx".to_string()));
    assert!(names.contains(&"OEBPS/chapter-1.xhtml".to_string()));
    let opf_content = text_of(&book, EpubVersion::Epub2, false, true, "OEBPS/content.opf");
    assert!(opf_content.contains("package") && opf_content.contains("2.0"));
}

#[test]
fn write_epub_toc_page_false_omits_toc_xhtml() {
    let book = minimal_book();
    let names = names(&book, EpubVersion::Epub3, Cover::NoCover, false, false);
    assert!(!names.iter().any(|n| n == "OEBPS/toc.xhtml"));
    let opf_content = text_of(&book, EpubVersion::Epub3, false, false, "OEBPS/content.opf");
    assert!(!opf_content.contains("toc-page"));
}

#[test]
fn write_epub_toc_page_true_includes_toc_xhtml() {
    let book = minimal_book();
    let names = names(&book, EpubVersion::Epub3, Cover::NoCover, false, true);
    assert!(names.contains(&"OEBPS/toc.xhtml".to_string()));
    let opf_content = text_of(&book, EpubVersion::Epub3, false, true, "OEBPS/content.opf");
    assert!(opf_content.contains("toc-page") && opf_content.contains("toc.xhtml"));
}

#[test]
fn archive_files_stand_in_writing_order() {
    let mut book = minimal_book();
    book.chapters.push(Chapter { title: "Two".to_string(), index: 5, body: "x".to_string() });
    let files = epub_files(&book, EpubVersion::Epub3, Cover::Image { jpeg: true }, true, true);
    let listed: Vec<(&str, bool)> = files.iter().map(|f| (f.name.as_str(), f.stored)).collect();
    assert_eq!(
        listed,
        vec![
            ("mimetype", true),
            ("META-INF/container.xml", false),
            ("OEBPS/content.opf", false),
            ("OEBPS/nav.xhtml", false),
            ("OEBPS/toc.ncx", false),
            ("OEBPS/cover.xhtml", false),
            ("OEBPS/toc.xhtml", false),
            ("OEBPS/chapter-1.xhtml", false),
            ("OEBPS/chapter-2.xhtml", false),
        ]
    );
    assert_eq!(files[0].text, "application/epub+zip");
    assert!(files[1].text.contains("full-path=\"OEBPS/content.opf\""));
    assert_eq!(cover_image_name(true), "OEBPS/images/cover.jpg");
    assert_eq!(cover_image_name(false), "OEBPS/images/cover.png");
    let v2 = names(&book, EpubVersion::Epub2, Cover::TitleOnly, false, false);
    assert_eq!(
        v2,
        vec![
            "mimetype",
            "META-INF/container.xml",
            "OEBPS/content.opf",
            "OEBPS/toc.ncx",
            "OEBPS/cover.xhtml",
            "OEBPS/chapter-1.xhtml",
            "OEBPS/chapter-2.xhtml"
        ]
    );
}

#[test]
fn package_document_of_epub3_is_exact() {
    let mut book = minimal_book();
    book.title = "A & B".to_string();
    book.description = Some("it's <here>".to_string());
    book.source_url = Some("https://x/y?a=1&b=2".to_string());
    let doc = package_document(&book, EpubVersion::Epub3, Cover::Image { jpeg: false }, true, true);
    let expected = r#"<?xml version="1.0" encoding="UTF-8"?>
<package xmlns="http://www.idpf.org/2007/opf" unique-identifier="book-id" version="3.0"
  xmlns:dc="http://purl.org/dc/elements/1.1/">
  <metadata xmlns:dc="http://purl.org/dc/elements/1.1/">
    <dc:identifier id="book-id">https://x/y?a=1&amp;b=2</dc:identifier>
    <dc:title>A &amp; B</dc:title>
    <dc:creator>Test Author</dc:creator>
    <dc:language>en</dc:language>
        <dc:description>it&apos;s &lt;here&gt;</dc:description>
  </metadata>
  <manifest>
<item id="content-opf" href="content.opf" media-type="application/oebps-package+xml"/>
  <item id="nav" href="nav.xhtml" media-type="application/xhtml+xml" properties="nav"/>
  <item id="ncx" href="toc.ncx" media-type="application/x-dtbncx+xml"/>
  <item id="cover-img" href="images/cover.png" media-type="image/png"/>
  <item id="cover" href="cover.xhtml" media-type="application/xhtml+xml"/>
  <item id="toc-page" href="toc.xhtml" media-type="application/xhtml+xml"/>
  <item id="chapter-1" href="chapter-1.xhtml" media-type="application/xhtml+xml"/>
  </manifest>
  <spine>
  <itemref idref="cover"/>
  <itemref idref="toc-page"/>
  <itemref idref="chapter-1"/>
  </spine>
  <guide>
  <reference type="cover" href="cover.xhtml" title="Cover"/>
  </guide>
</package>
"#;
    assert_eq!(doc, expected);
}

#[test]
fn package_document_of_epub2_without_cover_is_exact() {
    let book = minimal_book();
    let doc = package_document(&book, EpubVersion::Epub2, Cover::NoCover, false, false);
    let expected = r#"<?xml version="1.0" encoding="UTF-8"?>
<package xmlns="http://www.idpf.org/2007/opf" unique-identifier="book-id" version="2.0"
  xmlns:dc="http://purl.org/dc/elements/1.1/">
  <metadata xmlns:dc="http://purl.org/dc/elements/1.1/">
    <dc:identifier id="book-id">urn:rdrscrape:book</dc:identifier>
    <dc:title>Test Book</dc:title>
    <dc:creator>Test Author</dc:creator>
    <dc:language>en</dc:language>
    
  </metadata>
  <manifest>
<item id="content-opf" href="content.opf" media-type="application/oebps-package+xml"/>
  <item id="ncx" href="toc.ncx" media-type="application/x-dtbncx+xml"/>
  <item id="chapter-1" href="chapter-1.xhtml" media-type="application/xhtml+xml"/>
  </manifest>
  <spine toc="ncx">
<itemref idref="chapter-1"/>
  </spine>
  <guide>

  </guide>
</package>
"#;
    assert_eq!(doc, expected);
    let mut empty = minimal_book();
    empty.chapters.clear();
    let doc = package_document(&empty, EpubVersion::Epub3, Cover::NoCover, false, false);
    assert!(doc.contains("  <spine>\n  <itemref idref=\"chapter-1\"/>\n  </spine>"));
    let doc = package_document(&minimal_book(), EpubVersion::Epub3, Cover::NoCover, false, true);
    assert!(doc.contains("  <spine>\n<itemref idref=\"toc-page\"/>\n  <itemref idref=\"chapter-1\"/>\n  </spine>"));
}

#[test]
fn navigation_documents_are_exact() {
    let mut book = minimal_book();
    book.chapters[0].title = "One <1> 'a'".to_string();
    assert_eq!(
        nav_document(&book),
        r#"<!DOCTYPE html>
<html xmlns="http://www.w3.org/1999/xhtml" xmlns:epub="http://www.idpf.org/2007/ops">
<head>
  <meta charset="UTF-8"/>
  <title>Table of Contents</title>
</head>
<body>
  <nav epub:type="toc">
    <h1>Contents</h1>
    <ol>
    <li><a href="chapter-1.xhtml">One &lt;1&gt; 'a'</a></li>

    </ol>
  </nav>
</body>
</html>
"#
    );
    assert_eq!(
        toc_page_document(&book),
        r#"<!DOCTYPE html>
<html xmlns="http://www.w3.org/1999/xhtml">
<head>
  <meta charset="UTF-8"/>
  <title>Table of Contents</title>
</head>
<body>
  <h1>Table of Contents</h1>
  <ol>
    <li><a href="chapter-1.xhtml">One &lt;1&gt; 'a'</a></li>

  </ol>
</body>
</html>
"#
    );
    assert_eq!(
        ncx_document(&book),
        r#"<?xml version="1.0" encoding="UTF-8"?>
<ncx xmlns="http://www.daisy.org/z3986/2005/ncx/" version="2005-1">
  <head>
    <meta name="dtb:uid" content="urn:rdrscrape:book"/>
  </head>
  <docTitle>
    <text>Test Book</text>
  </docTitle>
  <navMap>
    <navPoint id="navpoint-1" playOrder="1">
      <navLabel><text>One &lt;1&gt; &apos;a&apos;</text></navLabel>
      <content src="chapter-1.xhtml"/>
    </navPoint>

  </navMap>
</ncx>
"#
    );
}

#[test]
fn cover_and_chapter_documents_are_exact() {
    let book = minimal_book();
    assert_eq!(cover_document(&book, Cover::NoCover), None);
    assert_eq!(
        cover_document(&book, Cover::TitleOnly).unwrap(),
        r#"<?xml version="1.0" encoding="UTF-8"?>
<!DOCTYPE html>
<html xmlns="http://www.w3.org/1999/xhtml">
<head>
  <meta charset="UTF-8"/>
  <title>Cover</title>
</head>
<body>
  <div style="text-align: center; font-family: serif; margin-top: 3em;">
    <h1 style="font-size: 1.5em;">Test Book</h1>
    <p style="margin-top: 1em;">Test Author</p>
  </div>
</body>
</html>
"#
    );
    assert!(cover_document(&book, Cover::Image { jpeg: true })
        .unwrap()
        .contains("<img src=\"images/cover.jpg\" alt=\"Cover\" style=\"max-width: 100%; height: auto;\"/>"));
    let chapter = Chapter { title: "It's".to_string(), index: 3, body: "<p>B</p>".to_string() };
    assert_eq!(
        chapter_document(&chapter, EpubVersion::Epub3),
        "<!DOCTYPE html>\n<html xmlns=\"http://www.w3.org/1999/xhtml\">\n<head>\n  <meta charset=\"UTF-8\"/>\n  <title>It's</title>\n</head>\n<body>\n<p>B</p>\n</body>\n</html>\n"
    );
    assert_eq!(
        chapter_document(&chapter, EpubVersion::Epub2),
        "<?xml version=\"1.0\" encoding=\"UTF-8\"?>\n<!DOCTYPE html PUBLIC \"-//W3C//DTD XHTML 1.1//EN\" \"http://www.w3.org/TR/xhtml11/DTD/xhtml11.dtd\">\n<html xmlns=\"http://www.w3.org/1999/xhtml\">\n<head>\n  <meta charset=\"UTF-8\"/>\n  <title>It&apos;s</title>\n</head>\n<body>\n<p>B</p>\n</body>\n</html>\n"
    );
}

#[test]
fn cover_is_fetched_only_from_a_url_and_jpeg_is_told_from_content_type() {
    let mut book = minimal_book();
    assert_eq!(cover_url_to_fetch(&book), None);
    book.cover_url = Some(String::new());
    assert_eq!(cover_url_to_fetch(&book), None);
    book.cover_url = Some("https://cdn/c.png".to_string());
    assert_eq!(cover_url_to_fetch(&book).as_deref(), Some("https://cdn/c.png"));
    assert!(is_jpeg_content_type(Some("image/jpeg")));
    assert!(is_jpeg_content_type(Some("image/jpg; charset=binary")));
    assert!(!is_jpeg_content_type(Some("image/png")));
    assert!(!is_jpeg_content_type(Some("IMAGE/JPEG")));
    assert!(!is_jpeg_content_type(None));
}

#[test]
fn write_html_contains_title_and_chapter_heading() {
    let book = described_book();
    let buf = render_html(&book).unwrap();
    assert!(buf.contains("Test Book"));
    assert!(buf.contains("<h2>"));
    assert!(buf.contains("Chapter One"));
    assert!(buf.contains("First paragraph"));
}

#[test]
fn write_markdown_contains_headers_and_no_raw_p_tags() {
    let book = described_book();
    let buf = render_markdown(&book).unwrap();
    assert!(buf.starts_with("# Test Book"));
    assert!(buf.contains("## Chapter One"));
    assert!(buf.contains("First paragraph"));
    assert!(!buf.contains("<p>"));
}

#[test]
fn write_text_contains_chapter_title_and_no_html_tags() {
    let book = described_book();
    let buf = render_text(&book).unwrap();
    assert!(buf.contains("Test Book"));
    assert!(buf.contains("Chapter 1: Chapter One"));
    assert!(buf.contains("First paragraph"));
    assert!(!buf.contains("<p>"));
}

#[test]
fn rendered_html_is_exact() {
    let mut book = described_book();
    book.title = "T & T".to_string();
    book.chapters[0].title = "\"One\"".to_string();
    assert_eq!(
        render_html(&book).unwrap(),
        r#"<!DOCTYPE html>
<html lang="en">
<head>
  <meta charset="UTF-8"/>
  <title>T &amp; T</title>
</head>
<body>
  <header>
    <h1>T &amp; T</h1>
    <p class="author">By Test Author</p>
    <p class="description">A test.</p>
  </header>
  <section class="chapter">
    <h2>&quot;One&quot;</h2>
    <div class="chapter-body">
<p>First paragraph.</p><p>Second paragraph.</p>
    </div>
  </section>
</body>
</html>
"#
    );
    book.description = None;
    book.chapters.clear();
    assert_eq!(
        render_html(&book).unwrap(),
        "<!DOCTYPE html>\n<html lang=\"en\">\n<head>\n  <meta charset=\"UTF-8\"/>\n  <title>T &amp; T</title>\n</head>\n<body>\n  <header>\n    <h1>T &amp; T</h1>\n    <p class=\"author\">By Test Author</p>\n  </header>\n</body>\n</html>\n"
    );
}

#[test]
fn rendered_text_and_markdown_are_exact() {
    let mut book = described_book();
    book.chapters[0].index = 7;
    book.chapters[0].body = "<p> First </p>".to_string();
    assert_eq!(
        render_text(&book).unwrap(),
        "Test Book\nBy Test Author\n\nA test.\n\n\n--- Chapter 7: Chapter One ---\n\nFirst\n"
    );
    book.chapters[0].body = "<p>First</p>".to_string();
    assert_eq!(
        render_markdown(&book).unwrap(),
        "# Test Book\n\nBy Test Author\n\nA test.\n\n---\n\n## Chapter One\n\nFirst\n\n"
    );
    book.description = None;
    book.chapters.clear();
    assert_eq!(render_text(&book).unwrap(), "Test Book\nBy Test Author\n\n");
    assert_eq!(render_markdown(&book).unwrap(), "# Test Book\n\nBy Test Author\n\n---\n\n");
}

#[test]
fn writers_refuse_books_without_title_or_author() {
    let mut book = described_book();
    book.author = "  ".to_string();
    assert!(matches!(render_html(&book), Err(FormatError::EmptyAuthor)));
    assert!(matches!(render_text(&book), Err(FormatError::EmptyAuthor)));
    assert!(matches!(render_markdown(&book), Err(FormatError::EmptyAuthor)));
    book.title = String::new();
    assert!(matches!(render_html(&book), Err(FormatError::EmptyTitle)));
    assert!(matches!(render_text(&book), Err(FormatError::EmptyTitle)));
    assert!(matches!(render_markdown(&book), Err(FormatError::EmptyTitle)));
}

#[test]
fn bodies_of_paragraphs_only_are_told_apart() {
    for body in [
        "",
        "<p></p>",
        "<p>one</p>",
        "<p>a &amp; b &lt; c > d \"e\"</p><p></p><p> x </p>",
        "<p>This chapter is locked (premium) and could not be retrieved.</p>",
    ] {
        assert!(is_paragraphs_only(body), "{:?}", body);
    }
    for body in [
        "text",
        " <p>x</p>",
        "<p>x</p> ",
        "<p>x",
        "<p>x</p><p>",
        "<p>a<b>b</b></p>",
        "<p><p></p></p>",
        "<P>x</P>",
        "<p >x</p>",
        "<p>x</p y>",
        "<p></p><b><li></li></b>",
        "<div><p>x</p></div>",
    ] {
        assert!(!is_paragraphs_only(body), "{:?}", body);
    }
}

#[test]
fn other_markup_is_written_as_plain_text_in_markdown() {
    assert_eq!(body_to_markdown("<p>First</p><p>Second &amp; third</p>"), "First\n\nSecond & third");
    assert_eq!(body_to_markdown(""), "");
    // markup that is not of paragraphs only never reaches the converter
    // (a body without any text stands as it is, as in the plain-text file)
    assert_eq!(body_to_markdown("<p></p><b><li></li></b>"), "<p></p><b><li></li></b>");
    assert_eq!(body_to_markdown("<p></p><b><li>item</li></b>"), "item");
    assert_eq!(body_to_markdown("  just text  "), "just text");
    let deep = format!("{}x{}", "<b>".repeat(300), "</b>".repeat(300));
    assert_eq!(body_to_markdown(&deep), "x");
    let mut book = described_book();
    book.chapters[0].body = "<p></p><b><li>item</li></b>".to_string();
    assert_eq!(
        render_markdown(&book).unwrap(),
        "# Test Book\n\nBy Test Author\n\nA test.\n\n---\n\n## Chapter One\n\nitem\n\n"
    );
}
