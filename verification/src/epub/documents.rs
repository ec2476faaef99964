//! The files of an EPUB archive, as texts: package document, navigation,
//! cover page, contents page and chapters, for EPUB 3 and for EPUB 2.

use crate::epub::{
    book_identifier, extension_of_image, image_extension, xml_escape, xml_escaped, Cover,
    EpubVersion,
};
use crate::model::{Book, BookView, Chapter, ChapterView};
use crate::text::{append_chars, append_str, chars_of, decimal, escaped, push_decimal, string_of};
use vstd::prelude::*;

verus! {

// ---------------------------------------------------------------------------
// Fixed texts
// ---------------------------------------------------------------------------

pub const MIMETYPE: &'static str = "application/epub+zip";

pub const CONTAINER_XML: &'static str =
    "<?xml version=\"1.0\" encoding=\"UTF-8\"?>\n<container version=\"1.0\" xmlns=\"urn:oasis:names:tc:opendocument:xmlns:container\">\n  <rootfiles>\n    <rootfile full-path=\"OEBPS/content.opf\" media-type=\"application/oebps-package+xml\"/>\n  </rootfiles>\n</container>";

pub const MANIFEST_HEAD_3: &'static str =
    "<item id=\"content-opf\" href=\"content.opf\" media-type=\"application/oebps-package+xml\"/>\n  <item id=\"nav\" href=\"nav.xhtml\" media-type=\"application/xhtml+xml\" properties=\"nav\"/>\n";

pub const MANIFEST_HEAD_2: &'static str =
    "<item id=\"content-opf\" href=\"content.opf\" media-type=\"application/oebps-package+xml\"/>\n  <item id=\"ncx\" href=\"toc.ncx\" media-type=\"application/x-dtbncx+xml\"/>\n";

pub const MANIFEST_NCX: &'static str =
    "  <item id=\"ncx\" href=\"toc.ncx\" media-type=\"application/x-dtbncx+xml\"/>\n";

pub const MANIFEST_COVER: &'static str =
    "  <item id=\"cover\" href=\"cover.xhtml\" media-type=\"application/xhtml+xml\"/>\n";

pub const MANIFEST_TOC_PAGE: &'static str =
    "  <item id=\"toc-page\" href=\"toc.xhtml\" media-type=\"application/xhtml+xml\"/>\n";

pub const SPINE_COVER: &'static str = "  <itemref idref=\"cover\"/>";

pub const SPINE_TOC_PAGE: &'static str = "<itemref idref=\"toc-page\"/>";

pub const SPINE_BREAK: &'static str = "\n  ";

pub const SPINE_FALLBACK: &'static str = "  <itemref idref=\"chapter-1\"/>";

pub const GUIDE_COVER: &'static str =
    "  <reference type=\"cover\" href=\"cover.xhtml\" title=\"Cover\"/>";

pub const OPF_HEAD_3: &'static str =
    "<?xml version=\"1.0\" encoding=\"UTF-8\"?>\n<package xmlns=\"http://www.idpf.org/2007/opf\" unique-identifier=\"book-id\" version=\"3.0\"\n  xmlns:dc=\"http://purl.org/dc/elements/1.1/\">\n  <metadata xmlns:dc=\"http://purl.org/dc/elements/1.1/\">\n    <dc:identifier id=\"book-id\">";

pub const OPF_HEAD_2: &'static str =
    "<?xml version=\"1.0\" encoding=\"UTF-8\"?>\n<package xmlns=\"http://www.idpf.org/2007/opf\" unique-identifier=\"book-id\" version=\"2.0\"\n  xmlns:dc=\"http://purl.org/dc/elements/1.1/\">\n  <metadata xmlns:dc=\"http://purl.org/dc/elements/1.1/\">\n    <dc:identifier id=\"book-id\">";

pub const OPF_TITLE: &'static str = "</dc:identifier>\n    <dc:title>";

pub const OPF_CREATOR: &'static str = "</dc:title>\n    <dc:creator>";

pub const OPF_LANGUAGE: &'static str = "</dc:creator>\n    <dc:language>en</dc:language>\n    ";

pub const OPF_DESCRIPTION_OPEN: &'static str = "    <dc:description>";

pub const OPF_DESCRIPTION_CLOSE: &'static str = "</dc:description>";

pub const OPF_MANIFEST: &'static str = "\n  </metadata>\n  <manifest>\n";

pub const OPF_SPINE_3: &'static str = "  </manifest>\n  <spine>\n";

pub const OPF_SPINE_2: &'static str = "  </manifest>\n  <spine toc=\"ncx\">\n";

pub const OPF_GUIDE: &'static str = "\n  </spine>\n  <guide>\n";

pub const OPF_TAIL: &'static str = "\n  </guide>\n</package>\n";

pub const NAV_HEAD: &'static str =
    "<!DOCTYPE html>\n<html xmlns=\"http://www.w3.org/1999/xhtml\" xmlns:epub=\"http://www.idpf.org/2007/ops\">\n<head>\n  <meta charset=\"UTF-8\"/>\n  <title>Table of Contents</title>\n</head>\n<body>\n  <nav epub:type=\"toc\">\n    <h1>Contents</h1>\n    <ol>\n";

pub const NAV_TAIL: &'static str = "\n    </ol>\n  </nav>\n</body>\n</html>\n";

pub const TOC_PAGE_HEAD: &'static str =
    "<!DOCTYPE html>\n<html xmlns=\"http://www.w3.org/1999/xhtml\">\n<head>\n  <meta charset=\"UTF-8\"/>\n  <title>Table of Contents</title>\n</head>\n<body>\n  <h1>Table of Contents</h1>\n  <ol>\n";

pub const TOC_PAGE_TAIL: &'static str = "\n  </ol>\n</body>\n</html>\n";

pub const NCX_HEAD: &'static str =
    "<?xml version=\"1.0\" encoding=\"UTF-8\"?>\n<ncx xmlns=\"http://www.daisy.org/z3986/2005/ncx/\" version=\"2005-1\">\n  <head>\n    <meta name=\"dtb:uid\" content=\"";

pub const NCX_TITLE: &'static str = "\"/>\n  </head>\n  <docTitle>\n    <text>";

pub const NCX_MAP: &'static str = "</text>\n  </docTitle>\n  <navMap>\n";

pub const NCX_TAIL: &'static str = "\n  </navMap>\n</ncx>\n";

pub const COVER_HEAD: &'static str =
    "<?xml version=\"1.0\" encoding=\"UTF-8\"?>\n<!DOCTYPE html>\n<html xmlns=\"http://www.w3.org/1999/xhtml\">\n<head>\n  <meta charset=\"UTF-8\"/>\n  <title>Cover</title>\n</head>\n<body>\n";

pub const COVER_TITLE_OPEN: &'static str =
    "  <div style=\"text-align: center; font-family: serif; margin-top: 3em;\">\n    <h1 style=\"font-size: 1.5em;\">";

pub const COVER_AUTHOR_OPEN: &'static str = "</h1>\n    <p style=\"margin-top: 1em;\">";

pub const COVER_TITLE_CLOSE: &'static str = "</p>\n  </div>";

pub const COVER_IMAGE_OPEN: &'static str =
    "  <div style=\"text-align: center;\">\n    <img src=\"images/cover.";

pub const COVER_IMAGE_CLOSE: &'static str =
    "\" alt=\"Cover\" style=\"max-width: 100%; height: auto;\"/>\n  </div>";

pub const PAGE_TAIL: &'static str = "\n</body>\n</html>\n";

pub const CHAPTER_HEAD_3: &'static str =
    "<!DOCTYPE html>\n<html xmlns=\"http://www.w3.org/1999/xhtml\">\n<head>\n  <meta charset=\"UTF-8\"/>\n  <title>";

pub const CHAPTER_HEAD_2: &'static str =
    "<?xml version=\"1.0\" encoding=\"UTF-8\"?>\n<!DOCTYPE html PUBLIC \"-//W3C//DTD XHTML 1.1//EN\" \"http://www.w3.org/TR/xhtml11/DTD/xhtml11.dtd\">\n<html xmlns=\"http://www.w3.org/1999/xhtml\">\n<head>\n  <meta charset=\"UTF-8\"/>\n  <title>";

pub const CHAPTER_BODY: &'static str = "</title>\n</head>\n<body>\n";

// ---------------------------------------------------------------------------
// The package document
// ---------------------------------------------------------------------------

/// The manifest item of the cover image.
pub open spec fn image_item(jpeg: bool) -> Seq<char> {
    "  <item id=\"cover-img\" href=\"images/cover."@ + image_extension(jpeg) + "\" media-type=\""@
        + (if jpeg {
        "image/jpeg"@
    } else {
        "image/png"@
    }) + "\"/>\n"@
}

/// The manifest item of chapter number `n`.
pub open spec fn chapter_item(n: nat) -> Seq<char> {
    "  <item id=\"chapter-"@ + decimal(n) + "\" href=\"chapter-"@ + decimal(n)
        + ".xhtml\" media-type=\"application/xhtml+xml\"/>\n"@
}

/// The manifest items of the chapters 1 to `n`.
pub open spec fn chapter_items(n: nat) -> Seq<char>
    decreases n,
{
    if n == 0 {
        Seq::<char>::empty()
    } else {
        chapter_items((n - 1) as nat) + chapter_item(n)
    }
}

/// The manifest: the package document itself, the navigation, then cover
/// image, cover page and contents page where the book has them, then the
/// chapters.
pub open spec fn manifest(
    version: EpubVersion,
    cover: Cover,
    include_ncx: bool,
    include_toc_page: bool,
    chapters: nat,
) -> Seq<char> {
    (match version {
        EpubVersion::Epub3 => MANIFEST_HEAD_3@ + (if include_ncx {
            MANIFEST_NCX@
        } else {
            Seq::<char>::empty()
        }),
        EpubVersion::Epub2 => MANIFEST_HEAD_2@,
    }) + (match cover {
        Cover::Image { jpeg } => image_item(jpeg),
        _ => Seq::<char>::empty(),
    }) + (if cover != Cover::NoCover {
        MANIFEST_COVER@
    } else {
        Seq::<char>::empty()
    }) + (if include_toc_page {
        MANIFEST_TOC_PAGE@
    } else {
        Seq::<char>::empty()
    }) + chapter_items(chapters)
}

/// `s`, and a line break behind it unless it is empty.
pub open spec fn broken(s: Seq<char>) -> Seq<char> {
    if s.len() > 0 {
        s + SPINE_BREAK@
    } else {
        s
    }
}

/// The spine before the chapters: cover page and contents page, where
/// the book has them.
pub open spec fn spine_front(cover: Cover, include_toc_page: bool) -> Seq<char> {
    let first = if cover != Cover::NoCover {
        SPINE_COVER@
    } else {
        Seq::<char>::empty()
    };
    if include_toc_page {
        broken(first) + SPINE_TOC_PAGE@
    } else {
        first
    }
}

/// The spine up to chapter number `n`.
pub open spec fn spine_to(front: Seq<char>, n: nat) -> Seq<char>
    decreases n,
{
    if n == 0 {
        front
    } else {
        broken(spine_to(front, (n - 1) as nat)) + "<itemref idref=\"chapter-"@ + decimal(n)
            + "\"/>"@
    }
}

/// The spine: the reading order of the book.
pub open spec fn spine(cover: Cover, include_toc_page: bool, chapters: nat) -> Seq<char> {
    let s = spine_to(spine_front(cover, include_toc_page), chapters);
    if s.len() == 0 {
        SPINE_FALLBACK@
    } else {
        s
    }
}

/// The description element of the package document; nothing where the
/// book has no description.
pub open spec fn description_element(description: Option<Seq<char>>) -> Seq<char> {
    match description {
        Some(d) => if xml_escaped(d).len() > 0 {
            OPF_DESCRIPTION_OPEN@ + xml_escaped(d) + OPF_DESCRIPTION_CLOSE@
        } else {
            Seq::<char>::empty()
        },
        None => Seq::<char>::empty(),
    }
}

/// The package document of a book.
pub open spec fn package_text(
    book: BookView,
    version: EpubVersion,
    cover: Cover,
    include_ncx: bool,
    include_toc_page: bool,
) -> Seq<char> {
    (match version {
        EpubVersion::Epub3 => OPF_HEAD_3@,
        EpubVersion::Epub2 => OPF_HEAD_2@,
    }) + xml_escaped(book_identifier(book.source_url)) + OPF_TITLE@ + xml_escaped(book.title)
        + OPF_CREATOR@ + xml_escaped(book.author) + OPF_LANGUAGE@ + description_element(
        book.description,
    ) + OPF_MANIFEST@ + manifest(
        version,
        cover,
        include_ncx,
        include_toc_page,
        book.chapters.len(),
    ) + (match version {
        EpubVersion::Epub3 => OPF_SPINE_3@,
        EpubVersion::Epub2 => OPF_SPINE_2@,
    }) + spine(cover, include_toc_page, book.chapters.len()) + OPF_GUIDE@ + (if cover
        != Cover::NoCover {
        GUIDE_COVER@
    } else {
        Seq::<char>::empty()
    }) + OPF_TAIL@
}

fn put_escaped_xml(out: &mut Vec<char>, s: &str)
    ensures
        final(out)@ == old(out)@ + xml_escaped(s@),
{
    let e = xml_escape(s);
    append_str(out, e.as_str());
}

fn put_escaped_html(out: &mut Vec<char>, s: &str)
    ensures
        final(out)@ == old(out)@ + escaped(s@),
{
    let chars = chars_of(s);
    crate::text::push_escaped(out, chars.as_slice());
}

fn put_manifest(
    out: &mut Vec<char>,
    version: EpubVersion,
    cover: Cover,
    include_ncx: bool,
    include_toc_page: bool,
    chapters: usize,
)
    ensures
        final(out)@ == old(out)@ + manifest(
            version,
            cover,
            include_ncx,
            include_toc_page,
            chapters as nat,
        ),
{
    let mut m: Vec<char> = Vec::new();
    match version {
        EpubVersion::Epub3 => {
            append_str(&mut m, MANIFEST_HEAD_3);
            if include_ncx {
                append_str(&mut m, MANIFEST_NCX);
            }
        },
        EpubVersion::Epub2 => {
            append_str(&mut m, MANIFEST_HEAD_2);
        },
    }
    if let Cover::Image { jpeg } = cover {
        append_str(&mut m, "  <item id=\"cover-img\" href=\"images/cover.");
        append_str(&mut m, extension_of_image(jpeg));
        append_str(&mut m, "\" media-type=\"");
        append_str(
            &mut m,
            if jpeg {
                "image/jpeg"
            } else {
                "image/png"
            },
        );
        append_str(&mut m, "\"/>\n");
    }
    if cover != Cover::NoCover {
        append_str(&mut m, MANIFEST_COVER);
    }
    if include_toc_page {
        append_str(&mut m, MANIFEST_TOC_PAGE);
    }
    let ghost front = m@;
    assert(front + chapter_items(0) =~= front);
    let mut i: usize = 0;
    while i < chapters
        invariant
            i <= chapters,
            m@ == front + chapter_items(i as nat),
        decreases chapters - i,
    {
        let ghost before = m@;
        let n: u64 = i as u64 + 1;
        append_str(&mut m, "  <item id=\"chapter-");
        push_decimal(&mut m, n);
        append_str(&mut m, "\" href=\"chapter-");
        push_decimal(&mut m, n);
        append_str(&mut m, ".xhtml\" media-type=\"application/xhtml+xml\"/>\n");
        assert(m@ =~= before + chapter_item(n as nat));
        assert(m@ =~= front + chapter_items((i + 1) as nat));
        i += 1;
    }
    assert(m@ =~= manifest(version, cover, include_ncx, include_toc_page, chapters as nat));
    append_chars(out, m.as_slice());
}

fn break_line(s: &mut Vec<char>)
    ensures
        final(s)@ == broken(old(s)@),
{
    if s.len() > 0 {
        append_str(s, SPINE_BREAK);
    }
}

fn put_spine(out: &mut Vec<char>, cover: Cover, include_toc_page: bool, chapters: usize)
    ensures
        final(out)@ == old(out)@ + spine(cover, include_toc_page, chapters as nat),
{
    let mut s: Vec<char> = Vec::new();
    if cover != Cover::NoCover {
        append_str(&mut s, SPINE_COVER);
    }
    if include_toc_page {
        break_line(&mut s);
        append_str(&mut s, SPINE_TOC_PAGE);
    }
    assert(s@ =~= spine_front(cover, include_toc_page));
    let ghost front = s@;
    let mut i: usize = 0;
    while i < chapters
        invariant
            i <= chapters,
            s@ == spine_to(front, i as nat),
        decreases chapters - i,
    {
        let n: u64 = i as u64 + 1;
        break_line(&mut s);
        append_str(&mut s, "<itemref idref=\"chapter-");
        push_decimal(&mut s, n);
        append_str(&mut s, "\"/>");
        assert(s@ =~= spine_to(front, (i + 1) as nat));
        i += 1;
    }
    if s.len() == 0 {
        append_str(&mut s, SPINE_FALLBACK);
        assert(s@ =~= SPINE_FALLBACK@);
    }
    append_chars(out, s.as_slice());
}

fn put_description(out: &mut Vec<char>, description: &Option<String>)
    ensures
        final(out)@ == old(out)@ + description_element(crate::model::opt_text(*description)),
{
    if let Some(d) = description {
        let e = xml_escape(d.as_str());
        if e.as_str().unicode_len() > 0 {
            let ghost before = out@;
            append_str(out, OPF_DESCRIPTION_OPEN);
            append_str(out, e.as_str());
            append_str(out, OPF_DESCRIPTION_CLOSE);
            assert(out@ =~= before + description_element(Some(d@)));
            return;
        }
    }
    assert(out@ =~= old(out)@ + Seq::<char>::empty());
}

/// Writes the package document of a book: what it is, what files it is
/// made of, and in what order they are read.
pub fn package_document(
    book: &Book,
    version: EpubVersion,
    cover: Cover,
    include_ncx: bool,
    include_toc_page: bool,
) -> (doc: String)
    ensures
        doc@ == package_text(book@, version, cover, include_ncx, include_toc_page),
{
    let mut out: Vec<char> = Vec::new();
    match version {
        EpubVersion::Epub3 => append_str(&mut out, OPF_HEAD_3),
        EpubVersion::Epub2 => append_str(&mut out, OPF_HEAD_2),
    }
    let id = crate::epub::identifier(book);
    put_escaped_xml(&mut out, id.as_str());
    append_str(&mut out, OPF_TITLE);
    put_escaped_xml(&mut out, book.title.as_str());
    append_str(&mut out, OPF_CREATOR);
    put_escaped_xml(&mut out, book.author.as_str());
    append_str(&mut out, OPF_LANGUAGE);
    put_description(&mut out, &book.description);
    append_str(&mut out, OPF_MANIFEST);
    put_manifest(&mut out, version, cover, include_ncx, include_toc_page, book.chapters.len());
    match version {
        EpubVersion::Epub3 => append_str(&mut out, OPF_SPINE_3),
        EpubVersion::Epub2 => append_str(&mut out, OPF_SPINE_2),
    }
    put_spine(&mut out, cover, include_toc_page, book.chapters.len());
    append_str(&mut out, OPF_GUIDE);
    if cover != Cover::NoCover {
        append_str(&mut out, GUIDE_COVER);
    }
    append_str(&mut out, OPF_TAIL);
    assert(out@ =~= package_text(book@, version, cover, include_ncx, include_toc_page));
    string_of(out.as_slice())
}

// ---------------------------------------------------------------------------
// Navigation
// ---------------------------------------------------------------------------

/// The list item that links to chapter number `n`.
pub open spec fn link_item(n: nat, title: Seq<char>) -> Seq<char> {
    "    <li><a href=\"chapter-"@ + decimal(n) + ".xhtml\">"@ + escaped(title) + "</a></li>\n"@
}

/// The list items that link to the chapters, in order.
pub open spec fn link_items(chapters: Seq<ChapterView>) -> Seq<char>
    decreases chapters.len(),
{
    if chapters.len() == 0 {
        Seq::<char>::empty()
    } else {
        link_items(chapters.drop_last()) + link_item(chapters.len(), chapters.last().title)
    }
}

/// The navigation document of EPUB 3.
pub open spec fn nav_text(book: BookView) -> Seq<char> {
    NAV_HEAD@ + link_items(book.chapters) + NAV_TAIL@
}

/// The page of contents that is read as part of the book.
pub open spec fn toc_page_text(book: BookView) -> Seq<char> {
    TOC_PAGE_HEAD@ + link_items(book.chapters) + TOC_PAGE_TAIL@
}

/// The navigation point of chapter number `n`.
pub open spec fn nav_point(n: nat, title: Seq<char>) -> Seq<char> {
    "    <navPoint id=\"navpoint-"@ + decimal(n) + "\" playOrder=\""@ + decimal(n)
        + "\">\n      <navLabel><text>"@ + xml_escaped(title)
        + "</text></navLabel>\n      <content src=\"chapter-"@ + decimal(n)
        + ".xhtml\"/>\n    </navPoint>\n"@
}

/// The navigation points of the chapters, in order.
pub open spec fn nav_points(chapters: Seq<ChapterView>) -> Seq<char>
    decreases chapters.len(),
{
    if chapters.len() == 0 {
        Seq::<char>::empty()
    } else {
        nav_points(chapters.drop_last()) + nav_point(chapters.len(), chapters.last().title)
    }
}

/// The NCX: the table of contents for readers of EPUB 2.
pub open spec fn ncx_text(book: BookView) -> Seq<char> {
    NCX_HEAD@ + xml_escaped(book_identifier(book.source_url)) + NCX_TITLE@ + xml_escaped(
        book.title,
    ) + NCX_MAP@ + nav_points(book.chapters) + NCX_TAIL@
}

fn put_link_items(out: &mut Vec<char>, book: &Book)
    ensures
        final(out)@ == old(out)@ + link_items(book@.chapters),
{
    let ghost all = book@.chapters;
    let mut items: Vec<char> = Vec::new();
    let mut i: usize = 0;
    assert(all.take(0) =~= Seq::<ChapterView>::empty());
    while i < book.chapters.len()
        invariant
            i <= book.chapters.len(),
            all == book@.chapters,
            items@ == link_items(all.take(i as int)),
        decreases book.chapters.len() - i,
    {
        let ghost before = items@;
        assert(all.take(i + 1).drop_last() =~= all.take(i as int));
        assert(all.take(i + 1).last() == all[i as int]);
        let n: u64 = i as u64 + 1;
        append_str(&mut items, "    <li><a href=\"chapter-");
        push_decimal(&mut items, n);
        append_str(&mut items, ".xhtml\">");
        put_escaped_html(&mut items, book.chapters[i].title.as_str());
        append_str(&mut items, "</a></li>\n");
        assert(items@ =~= before + link_item(n as nat, all[i as int].title));
        i += 1;
    }
    assert(all.take(book.chapters.len() as int) =~= all);
    append_chars(out, items.as_slice());
}

/// Writes the navigation document of EPUB 3.
pub fn nav_document(book: &Book) -> (doc: String)
    ensures
        doc@ == nav_text(book@),
{
    let mut out = chars_of(NAV_HEAD);
    put_link_items(&mut out, book);
    append_str(&mut out, NAV_TAIL);
    string_of(out.as_slice())
}

/// Writes the page of contents that is read as part of the book.
pub fn toc_page_document(book: &Book) -> (doc: String)
    ensures
        doc@ == toc_page_text(book@),
{
    let mut out = chars_of(TOC_PAGE_HEAD);
    put_link_items(&mut out, book);
    append_str(&mut out, TOC_PAGE_TAIL);
    string_of(out.as_slice())
}

/// Writes the NCX.
pub fn ncx_document(book: &Book) -> (doc: String)
    ensures
        doc@ == ncx_text(book@),
{
    let ghost all = book@.chapters;
    let mut points: Vec<char> = Vec::new();
    let mut i: usize = 0;
    assert(all.take(0) =~= Seq::<ChapterView>::empty());
    while i < book.chapters.len()
        invariant
            i <= book.chapters.len(),
            all == book@.chapters,
            points@ == nav_points(all.take(i as int)),
        decreases book.chapters.len() - i,
    {
        let ghost before = points@;
        assert(all.take(i + 1).drop_last() =~= all.take(i as int));
        assert(all.take(i + 1).last() == all[i as int]);
        let n: u64 = i as u64 + 1;
        append_str(&mut points, "    <navPoint id=\"navpoint-");
        push_decimal(&mut points, n);
        append_str(&mut points, "\" playOrder=\"");
        push_decimal(&mut points, n);
        append_str(&mut points, "\">\n      <navLabel><text>");
        put_escaped_xml(&mut points, book.chapters[i].title.as_str());
        append_str(&mut points, "</text></navLabel>\n      <content src=\"chapter-");
        push_decimal(&mut points, n);
        append_str(&mut points, ".xhtml\"/>\n    </navPoint>\n");
        assert(points@ =~= before + nav_point(n as nat, all[i as int].title));
        i += 1;
    }
    assert(all.take(book.chapters.len() as int) =~= all);
    let mut out = chars_of(NCX_HEAD);
    let id = crate::epub::identifier(book);
    put_escaped_xml(&mut out, id.as_str());
    append_str(&mut out, NCX_TITLE);
    put_escaped_xml(&mut out, book.title.as_str());
    append_str(&mut out, NCX_MAP);
    append_chars(&mut out, points.as_slice());
    append_str(&mut out, NCX_TAIL);
    string_of(out.as_slice())
}

// ---------------------------------------------------------------------------
// Cover page and chapters
// ---------------------------------------------------------------------------

/// The cover page; none for a book without cover.
pub open spec fn cover_text(book: BookView, cover: Cover) -> Option<Seq<char>> {
    match cover {
        Cover::NoCover => None,
        Cover::TitleOnly => Some(
            COVER_HEAD@ + COVER_TITLE_OPEN@ + escaped(book.title) + COVER_AUTHOR_OPEN@ + escaped(
                book.author,
            ) + COVER_TITLE_CLOSE@ + PAGE_TAIL@,
        ),
        Cover::Image { jpeg } => Some(
            COVER_HEAD@ + COVER_IMAGE_OPEN@ + image_extension(jpeg) + COVER_IMAGE_CLOSE@
                + PAGE_TAIL@,
        ),
    }
}

/// The document of one chapter: its title escaped as the version asks,
/// its body as it is.
pub open spec fn chapter_text(chapter: ChapterView, version: EpubVersion) -> Seq<char> {
    match version {
        EpubVersion::Epub3 => CHAPTER_HEAD_3@ + escaped(chapter.title) + CHAPTER_BODY@
            + chapter.body + PAGE_TAIL@,
        EpubVersion::Epub2 => CHAPTER_HEAD_2@ + xml_escaped(chapter.title) + CHAPTER_BODY@
            + chapter.body + PAGE_TAIL@,
    }
}

/// Writes the cover page, if the book has one.
pub fn cover_document(book: &Book, cover: Cover) -> (doc: Option<String>)
    ensures
        crate::model::opt_text(doc) == cover_text(book@, cover),
{
    match cover {
        Cover::NoCover => None,
        Cover::TitleOnly => {
            let mut out = chars_of(COVER_HEAD);
            append_str(&mut out, COVER_TITLE_OPEN);
            put_escaped_html(&mut out, book.title.as_str());
            append_str(&mut out, COVER_AUTHOR_OPEN);
            put_escaped_html(&mut out, book.author.as_str());
            append_str(&mut out, COVER_TITLE_CLOSE);
            append_str(&mut out, PAGE_TAIL);
            Some(string_of(out.as_slice()))
        },
        Cover::Image { jpeg } => {
            let mut out = chars_of(COVER_HEAD);
            append_str(&mut out, COVER_IMAGE_OPEN);
            append_str(&mut out, extension_of_image(jpeg));
            append_str(&mut out, COVER_IMAGE_CLOSE);
            append_str(&mut out, PAGE_TAIL);
            Some(string_of(out.as_slice()))
        },
    }
}

/// Writes the document of one chapter.
pub fn chapter_document(chapter: &Chapter, version: EpubVersion) -> (doc: String)
    ensures
        doc@ == chapter_text(chapter@, version),
{
    let mut out: Vec<char> = Vec::new();
    match version {
        EpubVersion::Epub3 => {
            append_str(&mut out, CHAPTER_HEAD_3);
            put_escaped_html(&mut out, chapter.title.as_str());
        },
        EpubVersion::Epub2 => {
            append_str(&mut out, CHAPTER_HEAD_2);
            put_escaped_xml(&mut out, chapter.title.as_str());
        },
    }
    append_str(&mut out, CHAPTER_BODY);
    append_str(&mut out, chapter.body.as_str());
    append_str(&mut out, PAGE_TAIL);
    assert(out@ =~= chapter_text(chapter@, version));
    string_of(out.as_slice())
}

// ---------------------------------------------------------------------------
// The archive
// ---------------------------------------------------------------------------

/// One text file of the archive.
#[derive(Debug)]
pub struct EpubFile {
    pub name: String,
    pub text: String,
    /// The file is stored as it is, not compressed.
    pub stored: bool,
}

pub open spec fn file_view(f: EpubFile) -> (Seq<char>, Seq<char>, bool) {
    (f.name@, f.text@, f.stored)
}

pub open spec fn file_views(s: Seq<EpubFile>) -> Seq<(Seq<char>, Seq<char>, bool)> {
    s.map_values(|f: EpubFile| file_view(f))
}

/// The name of the file of chapter number `n`.
pub open spec fn chapter_name(n: nat) -> Seq<char> {
    "OEBPS/chapter-"@ + decimal(n) + ".xhtml"@
}

/// The files of the chapters 1 to `n` of a book.
pub open spec fn chapter_files(chapters: Seq<ChapterView>, version: EpubVersion) -> Seq<
    (Seq<char>, Seq<char>, bool),
>
    decreases chapters.len(),
{
    if chapters.len() == 0 {
        Seq::<(Seq<char>, Seq<char>, bool)>::empty()
    } else {
        chapter_files(chapters.drop_last(), version).push(
            (chapter_name(chapters.len()), chapter_text(chapters.last(), version), false),
        )
    }
}

/// One file, where there is one.
pub open spec fn maybe(file: Option<(Seq<char>, Seq<char>, bool)>) -> Seq<
    (Seq<char>, Seq<char>, bool),
> {
    match file {
        Some(f) => seq![f],
        None => Seq::<(Seq<char>, Seq<char>, bool)>::empty(),
    }
}

/// The text files of the archive of a book, in the order in which they
/// are written: the media type first and stored as it is, the container,
/// the package document, the navigation (for EPUB 3 the navigation
/// document, and the NCX where asked for; for EPUB 2 the NCX), the cover
/// page and the page of contents where the book has them, the chapters.
pub open spec fn archive(
    book: BookView,
    version: EpubVersion,
    cover: Cover,
    include_ncx: bool,
    include_toc_page: bool,
) -> Seq<(Seq<char>, Seq<char>, bool)> {
    seq![
        ("mimetype"@, MIMETYPE@, true),
        ("META-INF/container.xml"@, CONTAINER_XML@, false),
        (
            "OEBPS/content.opf"@,
            package_text(book, version, cover, include_ncx, include_toc_page),
            false,
        ),
    ] + (match version {
        EpubVersion::Epub3 => seq![("OEBPS/nav.xhtml"@, nav_text(book), false)] + maybe(
            if include_ncx {
                Some(("OEBPS/toc.ncx"@, ncx_text(book), false))
            } else {
                None
            },
        ),
        EpubVersion::Epub2 => seq![("OEBPS/toc.ncx"@, ncx_text(book), false)],
    }) + maybe(
        match cover_text(book, cover) {
            Some(t) => Some(("OEBPS/cover.xhtml"@, t, false)),
            None => None,
        },
    ) + maybe(
        if include_toc_page {
            Some(("OEBPS/toc.xhtml"@, toc_page_text(book), false))
        } else {
            None
        },
    ) + chapter_files(book.chapters, version)
}

/// The name of the file of the cover image in the archive.
pub open spec fn image_name(jpeg: bool) -> Seq<char> {
    "OEBPS/images/cover."@ + image_extension(jpeg)
}

/// The name of the file of the cover image in the archive.
pub fn cover_image_name(jpeg: bool) -> (name: String)
    ensures
        name@ == image_name(jpeg),
{
    let mut out = chars_of("OEBPS/images/cover.");
    append_str(&mut out, extension_of_image(jpeg));
    string_of(out.as_slice())
}

fn file(name: &str, text: String, stored: bool) -> (f: EpubFile)
    ensures
        file_view(f) == (name@, text@, stored),
{
    EpubFile { name: name.to_string(), text, stored }
}

/// Writes the text files of the archive of a book, in the order in which
/// they go into the archive. The cover image, if there is one, goes in
/// behind them.
pub fn epub_files(
    book: &Book,
    version: EpubVersion,
    cover: Cover,
    include_ncx: bool,
    include_toc_page: bool,
) -> (files: Vec<EpubFile>)
    ensures
        file_views(files@) == archive(book@, version, cover, include_ncx, include_toc_page),
{
    let mut files: Vec<EpubFile> = Vec::new();
    files.push(file("mimetype", MIMETYPE.to_string(), true));
    files.push(file("META-INF/container.xml", CONTAINER_XML.to_string(), false));
    files.push(
        file(
            "OEBPS/content.opf",
            package_document(book, version, cover, include_ncx, include_toc_page),
            false,
        ),
    );
    match version {
        EpubVersion::Epub3 => {
            files.push(file("OEBPS/nav.xhtml", nav_document(book), false));
            if include_ncx {
                files.push(file("OEBPS/toc.ncx", ncx_document(book), false));
            }
        },
        EpubVersion::Epub2 => {
            files.push(file("OEBPS/toc.ncx", ncx_document(book), false));
        },
    }
    if let Some(t) = cover_document(book, cover) {
        files.push(file("OEBPS/cover.xhtml", t, false));
    }
    if include_toc_page {
        files.push(file("OEBPS/toc.xhtml", toc_page_document(book), false));
    }
    let ghost front = file_views(files@);
    let ghost all = book@.chapters;
    assert(all.take(0) =~= Seq::<ChapterView>::empty());
    assert(front + chapter_files(all.take(0), version) =~= front);
    let mut i: usize = 0;
    while i < book.chapters.len()
        invariant
            i <= book.chapters.len(),
            all == book@.chapters,
            file_views(files@) == front + chapter_files(all.take(i as int), version),
        decreases book.chapters.len() - i,
    {
        let ghost before = file_views(files@);
        assert(all.take(i + 1).drop_last() =~= all.take(i as int));
        assert(all.take(i + 1).last() == all[i as int]);
        let mut name = chars_of("OEBPS/chapter-");
        push_decimal(&mut name, i as u64 + 1);
        append_str(&mut name, ".xhtml");
        let f = EpubFile {
            name: string_of(name.as_slice()),
            text: chapter_document(&book.chapters[i], version),
            stored: false,
        };
        files.push(f);
        assert(file_views(files@) =~= before.push(
            (chapter_name((i + 1) as nat), chapter_text(all[i as int], version), false),
        ));
        assert(file_views(files@) =~= front + chapter_files(all.take(i + 1), version));
        i += 1;
    }
    assert(all.take(book.chapters.len() as int) =~= all);
    assert(front =~= archive(
        book@,
        version,
        cover,
        include_ncx,
        include_toc_page,
    ).take(front.len() as int)) by {
        assert(front =~= seq![
            ("mimetype"@, MIMETYPE@, true),
            ("META-INF/container.xml"@, CONTAINER_XML@, false),
            (
                "OEBPS/content.opf"@,
                package_text(book@, version, cover, include_ncx, include_toc_page),
                false,
            ),
        ] + (match version {
            EpubVersion::Epub3 => seq![("OEBPS/nav.xhtml"@, nav_text(book@), false)] + maybe(
                if include_ncx {
                    Some(("OEBPS/toc.ncx"@, ncx_text(book@), false))
                } else {
                    None
                },
            ),
            EpubVersion::Epub2 => seq![("OEBPS/toc.ncx"@, ncx_text(book@), false)],
        }) + maybe(
            match cover_text(book@, cover) {
                Some(t) => Some(("OEBPS/cover.xhtml"@, t, false)),
                None => None,
            },
        ) + maybe(
            if include_toc_page {
                Some(("OEBPS/toc.xhtml"@, toc_page_text(book@), false))
            } else {
                None
            },
        ));
    }
    assert(file_views(files@) =~= archive(book@, version, cover, include_ncx, include_toc_page));
    files
}

} // verus!
