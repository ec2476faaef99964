use rdrscrape::scraper::metadata::{book_from_json, strip_html_tags};
use rdrscrape::scraper::royalroad::{ensure_fiction_url, html_escape_inner};
use rdrscrape::scraper::strip_title_site_suffix;
use rdrscrape::text::{
    chars_of, find_from, has_prefix, has_suffix, is_blank, parse_u32, push_decimal, replace_all,
    span_until, string_of, strip_leading, strip_trailing, trim_chars,
};

fn v(s: &str) -> Vec<char> {
    chars_of(s)
}

#[test]
fn characters_round_trip() {
    let s = "a\u{e9}\u{4e16}\u{1f600}z";
    let chars = chars_of(s);
    assert_eq!(chars, s.chars().collect::<Vec<char>>());
    assert_eq!(string_of(&chars), s);
    assert_eq!(string_of(&[]), "");
}

#[test]
fn trimming_takes_all_white_space_and_nothing_else() {
    let spaces = "\t\n\u{b}\u{c}\r \u{85}\u{a0}\u{1680}\u{2000}\u{200a}\u{2028}\u{2029}\u{202f}\u{205f}\u{3000}";
    let text = format!("{}a b{}", spaces, spaces);
    assert_eq!(trim_chars(&v(&text)), v("a b"));
    assert_eq!(string_of(&trim_chars(&v(&text))), text.trim());
    // zero width space and other marks are no white space
    assert_eq!(trim_chars(&v("\u{200b}a\u{feff}")), v("\u{200b}a\u{feff}"));
    assert_eq!(trim_chars(&v("\u{1c}a")), v("\u{1c}a"));
    assert!(is_blank(&v(spaces)));
    assert!(is_blank(&v("")));
    assert!(!is_blank(&v(" . ")));
}

#[test]
fn numbers_are_parsed_as_unsigned_decimals() {
    assert_eq!(parse_u32(&v("0")), Some(0));
    assert_eq!(parse_u32(&v("007")), Some(7));
    assert_eq!(parse_u32(&v("+12")), Some(12));
    assert_eq!(parse_u32(&v("4294967295")), Some(4294967295));
    assert_eq!(parse_u32(&v("4294967296")), None);
    assert_eq!(parse_u32(&v("99999999999999999999999999")), None);
    assert_eq!(parse_u32(&v("")), None);
    assert_eq!(parse_u32(&v("+")), None);
    assert_eq!(parse_u32(&v("-1")), None);
    assert_eq!(parse_u32(&v("++1")), None);
    assert_eq!(parse_u32(&v("1 ")), None);
    assert_eq!(parse_u32(&v("1a")), None);
    assert_eq!(parse_u32(&v("\u{661}")), None);
    for s in ["0", "1", "10", "65535", "4294967295", "+3", "x", "", "12x", "4294967296"] {
        assert_eq!(parse_u32(&v(s)), s.parse::<u32>().ok());
    }
}

#[test]
fn numbers_are_written_as_decimals() {
    for n in [0u64, 9, 10, 99, 100, 4294967295, u64::MAX] {
        let mut out = v("n=");
        push_decimal(&mut out, n);
        assert_eq!(string_of(&out), format!("n={}", n));
    }
}

#[test]
fn searching_and_cutting() {
    let hay = v("abcabc");
    assert_eq!(find_from(&hay, &v("bc"), 0), Some(1));
    assert_eq!(find_from(&hay, &v("bc"), 2), Some(4));
    assert_eq!(find_from(&hay, &v("bc"), 5), None);
    assert_eq!(find_from(&hay, &v(""), 6), Some(6));
    assert_eq!(find_from(&hay, &v(""), 7), None);
    assert_eq!(find_from(&hay, &v("abcabcd"), 0), None);
    assert!(has_prefix(&hay, &v("abc")));
    assert!(!has_prefix(&hay, &v("bc")));
    assert!(has_suffix(&hay, &v("abc")));
    assert!(has_suffix(&hay, &v("")));
    assert!(!has_suffix(&hay, &v("ab")));
    assert_eq!(span_until(&hay, 1, 'a'), 2);
    assert_eq!(span_until(&hay, 4, 'a'), 2);
    assert_eq!(span_until(&hay, 6, 'a'), 0);
    assert_eq!(strip_leading(&v("//a/b/"), '/'), v("a/b/"));
    assert_eq!(strip_trailing(&v("//a/b//"), '/'), v("//a/b"));
    assert_eq!(strip_trailing(&v("///"), '/'), v(""));
    assert_eq!(replace_all(&v("aaaa"), &v("aa"), &v("a")), v("aa"));
    assert_eq!(replace_all(&v("a\n\n\n\nb"), &v("\n\n\n"), &v("\n\n")), v("a\n\n\nb"));
    assert_eq!(replace_all(&v("abc"), &v(""), &v("x")), v("abc"));
    for (s, p, r) in [("aXbXXc", "X", "--"), ("xyxyx", "xyx", "z"), ("ab", "abc", "z")] {
        assert_eq!(string_of(&replace_all(&v(s), &v(p), &v(r))), s.replace(p, r));
    }
}

#[test]
fn tags_are_stripped_from_descriptions() {
    assert_eq!(strip_html_tags("<p>About <b>this</b></p>"), "About this");
    assert_eq!(strip_html_tags("  a > b < c > d  "), "a  b  d");
    assert_eq!(strip_html_tags("a\n\n\n\n\nb<br"), "a\n\n\n\nb");
    assert_eq!(strip_html_tags("<i>"), "");
}

#[test]
fn markup_characters_are_escaped() {
    assert_eq!(html_escape_inner("a & b < c > d \"e\" 'f'"), "a &amp; b &lt; c &gt; d &quot;e&quot; 'f'");
    assert_eq!(html_escape_inner("&amp;"), "&amp;amp;");
    assert_eq!(html_escape_inner(""), "");
}

#[test]
fn suffix_is_stripped_at_the_end_once() {
    assert_eq!(
        strip_title_site_suffix("Chapter 1 - Smart decisions - Site Name", &[" - Site Name"]),
        "Chapter 1 - Smart decisions"
    );
    // the suffix text elsewhere in the title stays
    assert_eq!(
        strip_title_site_suffix("A - Site Name - B", &[" - Site Name"]),
        "A - Site Name - B"
    );
    // stripped at most once, and only the first suffix that matches
    assert_eq!(
        strip_title_site_suffix("A - Site Name - Site Name", &[" - Site Name"]),
        "A - Site Name"
    );
    assert_eq!(
        strip_title_site_suffix("  A | S - S  ", &[" - S", " | S - S"]),
        "A | S"
    );
    assert_eq!(strip_title_site_suffix(" - Site Name", &[" - Site Name"]), "- Site Name");
    assert_eq!(strip_title_site_suffix("x - Site Name", &[]), "x - Site Name");
    assert_eq!(strip_title_site_suffix("   ", &[" - S"]), "");
}

#[test]
fn story_url_is_checked() {
    assert_eq!(
        ensure_fiction_url("https://www.royalroad.com/fiction/21220/mother-of-learning").unwrap(),
        "https://www.royalroad.com/fiction/21220/mother-of-learning"
    );
    assert!(ensure_fiction_url("https://www.royalroad.com/fiction/1/s/chapter/2/x").is_err());
    // a query that holds the word is no chapter path
    assert!(ensure_fiction_url("https://www.royalroad.com/fiction/1/s?x=/chapter/").is_ok());
}

#[test]
fn linked_data_must_describe_a_book() {
    let book = r#"{"@type":"Book","name":"N","author":{"name":"A"},"description":"<p>D</p>","image":""}"#;
    assert_eq!(
        book_from_json(book),
        Some(("N".to_string(), "A".to_string(), Some("D".to_string()), None))
    );
    assert_eq!(book_from_json(r#"{"@type":"Article","name":"N","author":{"name":"A"}}"#), None);
    assert_eq!(book_from_json(r#"{"@type":"Book","name":"","author":{"name":"A"}}"#), None);
    assert_eq!(book_from_json(r#"{"@type":"Book","name":"N","author":"A"}"#), None);
    assert_eq!(book_from_json(r#"{"@type":"Book","name":7,"author":{"name":"A"}}"#), None);
    assert_eq!(book_from_json("not json"), None);
}
