//! Queries on HTML documents, answered by the `scraper` crate.

use crate::model::opt_text;
use ::scraper::{Html, Selector};
use vstd::prelude::*;

verus! {

/// What the crawler reads of one element that a selector matched.
pub struct Picked {
    /// All text below the element, concatenated.
    pub text: String,
    /// The first text node below the element, if there is one.
    pub lead: Option<String>,
    /// The value of the attribute asked for, if the element has it.
    pub attr: Option<String>,
}

/// One list item of a link list.
pub struct LinkRow {
    /// The item's key attribute.
    pub key: Option<String>,
    /// The item's links: of each its target attribute and its text.
    pub links: Vec<(Option<String>, String)>,
}

pub open spec fn picked_view(p: Picked) -> (Seq<char>, Option<Seq<char>>, Option<Seq<char>>) {
    (p.text@, opt_text(p.lead), opt_text(p.attr))
}

pub open spec fn picked_views(s: Seq<Picked>) -> Seq<
    (Seq<char>, Option<Seq<char>>, Option<Seq<char>>),
> {
    s.map_values(|p: Picked| picked_view(p))
}

/// A link: its target attribute and its text.
pub type Link = (Option<Seq<char>>, Seq<char>);

/// A list item: its key attribute and its links.
pub type Row = (Option<Seq<char>>, Seq<(Option<Seq<char>>, Seq<char>)>);

pub open spec fn link_views(s: Seq<(Option<String>, String)>) -> Seq<Link> {
    s.map_values(|l: (Option<String>, String)| (opt_text(l.0), l.1@))
}

pub open spec fn row_view(r: LinkRow) -> Row {
    (opt_text(r.key), link_views(r.links@))
}

pub open spec fn row_views(s: Seq<LinkRow>) -> Seq<Row> {
    s.map_values(|r: LinkRow| row_view(r))
}

pub open spec fn list_views(s: Seq<Vec<LinkRow>>) -> Seq<Seq<Row>> {
    s.map_values(|l: Vec<LinkRow>| row_views(l@))
}

/// The elements of the document `html` that `selector` matches, in the
/// order in which `Html::select` gives them: for each its whole text, its
/// first text node and its attribute `attr`. The selector parser's message
/// where `selector` is no selector.
pub uninterp spec fn dom_select(html: Seq<char>, selector: Seq<char>, attr: Seq<char>) -> Result<
    Seq<(Seq<char>, Option<Seq<char>>, Option<Seq<char>>)>,
    Seq<char>,
>;

/// For each element of the document `html` that `list` matches, the items
/// matching `item` below it; for each item its attribute `key` and, for
/// each link matching `link` below it, the attribute `target` and the
/// text; all in the order in which `Html::select` and `ElementRef::select`
/// give them. Where one of the three is no selector: the first of them that
/// is none, with the selector parser's message.
pub uninterp spec fn dom_rows(
    html: Seq<char>,
    list: Seq<char>,
    item: Seq<char>,
    link: Seq<char>,
    key: Seq<char>,
    target: Seq<char>,
) -> Result<
    Seq<Seq<(Option<Seq<char>>, Seq<(Option<Seq<char>>, Seq<char>)>)>>,
    (Seq<char>, Seq<char>),
>;

/// All text of the fragment `html`, concatenated.
pub uninterp spec fn dom_fragment_text(html: Seq<char>) -> Seq<char>;

pub open spec fn picked_result(r: Result<Vec<Picked>, String>) -> Result<
    Seq<(Seq<char>, Option<Seq<char>>, Option<Seq<char>>)>,
    Seq<char>,
> {
    match r {
        Ok(v) => Ok(picked_views(v@)),
        Err(e) => Err(e@),
    }
}

pub open spec fn rows_result(r: Result<Vec<Vec<LinkRow>>, (String, String)>) -> Result<
    Seq<Seq<Row>>,
    (Seq<char>, Seq<char>),
> {
    match r {
        Ok(v) => Ok(list_views(v@)),
        Err(e) => Err((e.0@, e.1@)),
    }
}

/// Calls `Selector::parse`, `Html::parse_document` and `Html::select`, and
/// reads each match with `ElementRef::text` and `Element::attr`.
/// Trusted: the outcome depends on the three strings alone.
#[verifier::external_body]
pub(crate) fn select_elements(html: &str, selector: &str, attr: &str) -> (r: Result<
    Vec<Picked>,
    String,
>)
    ensures
        picked_result(r) == dom_select(html@, selector@, attr@),
{
    let sel = Selector::parse(selector).map_err(|e| e.to_string())?;
    let doc = Html::parse_document(html);
    Ok(doc.select(&sel).map(|e| Picked {
        text: e.text().collect(),
        lead: e.text().next().map(str::to_string),
        attr: e.attr(attr).map(str::to_string),
    }).collect())
}

/// Calls `Selector::parse` on the three selectors, `Html::parse_document`,
/// `Html::select` for the lists and `ElementRef::select` for items and
/// links, and reads them with `ElementRef::attr` and `ElementRef::text`.
/// Trusted: the outcome depends on the six strings alone. Which list and
/// which link counts is left to the caller.
#[verifier::external_body]
pub(crate) fn select_rows(
    html: &str,
    list: &str,
    item: &str,
    link: &str,
    key: &str,
    target: &str,
) -> (r: Result<Vec<Vec<LinkRow>>, (String, String)>)
    ensures
        rows_result(r) == dom_rows(html@, list@, item@, link@, key@, target@),
{
    let parse = |s: &str| Selector::parse(s).map_err(|e| (s.to_string(), e.to_string()));
    let (lists, items, links) = (parse(list)?, parse(item)?, parse(link)?);
    let doc = Html::parse_document(html);
    Ok(doc.select(&lists).map(|l| l.select(&items).map(|i| LinkRow {
        key: i.attr(key).map(str::to_string),
        links: i.select(&links).map(|a| (a.attr(target).map(str::to_string), a.text().collect())).collect(),
    }).collect()).collect())
}

/// Calls `Html::parse_fragment`, `Html::root_element` and `ElementRef::text`.
/// Trusted: the result depends on `html` alone.
#[verifier::external_body]
pub(crate) fn fragment_text(html: &str) -> (r: String)
    ensures
        r@ == dom_fragment_text(html@),
{
    Html::parse_fragment(html).root_element().text().collect()
}

} // verus!
