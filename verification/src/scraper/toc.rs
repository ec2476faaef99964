//! The table of contents of a story: entries in reading order, sorted,
//! freed of duplicates and cut to a range of chapters.

use vstd::prelude::*;

verus! {

/// One chapter listed by a site: where it stands, where it is, what it is
/// called, and whether it can be read without paying.
#[derive(Debug)]
pub struct TocEntry {
    pub index: u32,
    pub url: String,
    pub title: String,
    pub unlocked: bool,
}

/// A `TocEntry` as mathematical values.
pub ghost struct TocEntryView {
    pub index: u32,
    pub url: Seq<char>,
    pub title: Seq<char>,
    pub unlocked: bool,
}

impl View for TocEntry {
    type V = TocEntryView;

    open spec fn view(&self) -> TocEntryView {
        TocEntryView { index: self.index, url: self.url@, title: self.title@, unlocked: self.unlocked }
    }
}

impl TocEntry {
    /// A copy of the entry.
    pub fn duplicate(&self) -> (e: TocEntry)
        ensures
            e@ == self@,
    {
        TocEntry {
            index: self.index,
            url: self.url.clone(),
            title: self.title.clone(),
            unlocked: self.unlocked,
        }
    }
}

pub open spec fn entry_views(s: Seq<TocEntry>) -> Seq<TocEntryView> {
    s.map_values(|e: TocEntry| e@)
}

/// An entry as the triple (order, URL, title) of a site without locked chapters.
pub open spec fn triple_view(t: (u32, String, String)) -> (u32, Seq<char>, Seq<char>) {
    (t.0, t.1@, t.2@)
}

pub open spec fn triple_views(s: Seq<(u32, String, String)>) -> Seq<(u32, Seq<char>, Seq<char>)> {
    s.map_values(|t: (u32, String, String)| triple_view(t))
}

pub open spec fn entry_of_triple(t: (u32, Seq<char>, Seq<char>)) -> TocEntryView {
    TocEntryView { index: t.0, url: t.1, title: t.2, unlocked: true }
}

pub open spec fn triple_of_entry(e: TocEntryView) -> (u32, Seq<char>, Seq<char>) {
    (e.index, e.url, e.title)
}

pub open spec fn entries_of_triples(s: Seq<(u32, Seq<char>, Seq<char>)>) -> Seq<TocEntryView> {
    s.map_values(|t: (u32, Seq<char>, Seq<char>)| entry_of_triple(t))
}

pub open spec fn triples_of_entries(s: Seq<TocEntryView>) -> Seq<(u32, Seq<char>, Seq<char>)> {
    s.map_values(|e: TocEntryView| triple_of_entry(e))
}

// ---------------------------------------------------------------------------
// Stable sorting by index
// ---------------------------------------------------------------------------

/// Entries stand in ascending order of index; equal indices may follow each other.
pub open spec fn in_order(s: Seq<TocEntryView>) -> bool {
    forall|i: int, j: int| 0 <= i < j < s.len() ==> s[i].index <= s[j].index
}

/// How many entries of `s` have an index of at most `index`.
pub open spec fn count_up_to(s: Seq<TocEntryView>, index: u32) -> nat
    decreases s.len(),
{
    if s.len() == 0 {
        0
    } else {
        count_up_to(s.drop_last(), index) + if s.last().index <= index {
            1nat
        } else {
            0nat
        }
    }
}

/// `s` with `e` put in behind the entries whose index is not greater.
pub open spec fn placed(s: Seq<TocEntryView>, e: TocEntryView) -> Seq<TocEntryView> {
    s.insert(count_up_to(s, e.index) as int, e)
}

/// `s` sorted by index, entries of equal index in the order they had.
pub open spec fn sorted_by_index(s: Seq<TocEntryView>) -> Seq<TocEntryView>
    decreases s.len(),
{
    if s.len() == 0 {
        Seq::<TocEntryView>::empty()
    } else {
        placed(sorted_by_index(s.drop_last()), s.last())
    }
}

/// `e` is one of the entries of `s`.
pub open spec fn listed(s: Seq<TocEntryView>, e: TocEntryView) -> bool {
    exists|i: int| 0 <= i < s.len() && s[i] == e
}

/// A position that splits `s` into not-greater and greater indices is the count.
pub proof fn lemma_count_split(s: Seq<TocEntryView>, index: u32, r: int)
    requires
        0 <= r <= s.len(),
        forall|i: int| 0 <= i < r ==> s[i].index <= index,
        forall|i: int| r <= i < s.len() ==> s[i].index > index,
    ensures
        count_up_to(s, index) == r,
    decreases s.len(),
{
    if s.len() > 0 {
        if r == s.len() {
            lemma_count_split(s.drop_last(), index, r - 1);
        } else {
            lemma_count_split(s.drop_last(), index, r);
        }
    }
}

/// In an ordered list the count splits not-greater from greater indices.
pub proof fn lemma_count_in_order(s: Seq<TocEntryView>, index: u32)
    requires
        in_order(s),
    ensures
        count_up_to(s, index) <= s.len(),
        forall|i: int| 0 <= i < count_up_to(s, index) ==> s[i].index <= index,
        forall|i: int| count_up_to(s, index) <= i < s.len() ==> s[i].index > index,
    decreases s.len(),
{
    if s.len() > 0 {
        let front = s.drop_last();
        assert(in_order(front));
        lemma_count_in_order(front, index);
        let rf = count_up_to(front, index) as int;
        if s.last().index <= index {
            assert forall|i: int| 0 <= i < front.len() implies front[i].index <= index by {
                assert(s[i].index <= s[s.len() - 1].index);
            }
            if rf < front.len() {
                assert(front[rf].index > index);
            }
            assert forall|i: int| 0 <= i < count_up_to(s, index) implies s[i].index <= index by {
                if i < front.len() {
                    assert(s[i] == front[i]);
                }
            }
        } else {
            assert forall|i: int| 0 <= i < count_up_to(s, index) implies s[i].index <= index by {
                assert(s[i] == front[i]);
            }
            assert forall|i: int| count_up_to(s, index) <= i < s.len() implies s[i].index
                > index by {
                if i < front.len() {
                    assert(s[i] == front[i]);
                }
            }
        }
    }
}

/// Placing an entry keeps the order, and keeps exactly the old entries and the new one.
pub proof fn lemma_placed(s: Seq<TocEntryView>, e: TocEntryView)
    requires
        in_order(s),
    ensures
        in_order(placed(s, e)),
        placed(s, e).len() == s.len() + 1,
        forall|x: TocEntryView| listed(placed(s, e), x) <==> (x == e || listed(s, x)),
{
    lemma_count_in_order(s, e.index);
    let r = count_up_to(s, e.index) as int;
    let out = placed(s, e);
    assert forall|i: int, j: int| 0 <= i < j < out.len() implies out[i].index <= out[j].index by {
        if j < r {
            assert(out[i] == s[i] && out[j] == s[j]);
        } else if j == r {
            assert(out[i] == s[i]);
        } else if i < r {
            assert(out[i] == s[i] && out[j] == s[j - 1]);
        } else if i == r {
            assert(out[j] == s[j - 1]);
        } else {
            assert(out[i] == s[i - 1] && out[j] == s[j - 1]);
        }
    }
    assert forall|x: TocEntryView| listed(out, x) <==> (x == e || listed(s, x)) by {
        if listed(out, x) {
            let i = choose|i: int| 0 <= i < out.len() && out[i] == x;
            if i < r {
                assert(s[i] == x);
            } else if i > r {
                assert(s[i - 1] == x);
            }
        }
        if x == e {
            assert(out[r] == x);
        }
        if listed(s, x) {
            let i = choose|i: int| 0 <= i < s.len() && s[i] == x;
            if i < r {
                assert(out[i] == x);
            } else {
                assert(out[i + 1] == x);
            }
        }
    }
}

/// Sorting gives an ordered list of the same length with the same entries.
pub proof fn lemma_sorted(s: Seq<TocEntryView>)
    ensures
        in_order(sorted_by_index(s)),
        sorted_by_index(s).len() == s.len(),
        forall|x: TocEntryView| listed(sorted_by_index(s), x) <==> listed(s, x),
    decreases s.len(),
{
    if s.len() > 0 {
        let front = s.drop_last();
        lemma_sorted(front);
        lemma_placed(sorted_by_index(front), s.last());
        assert forall|x: TocEntryView| listed(sorted_by_index(s), x) <==> listed(s, x) by {
            if listed(s, x) {
                let i = choose|i: int| 0 <= i < s.len() && s[i] == x;
                if i < front.len() {
                    assert(front[i] == x);
                }
            }
            if listed(front, x) {
                let i = choose|i: int| 0 <= i < front.len() && front[i] == x;
                assert(s[i] == x);
            }
            if x == s.last() {
                assert(s[s.len() - 1] == x);
            }
        }
    }
}

/// Sorts the entries by index; entries of equal index keep their order.
pub fn sort_entries(entries: Vec<TocEntry>) -> (out: Vec<TocEntry>)
    ensures
        entry_views(out@) == sorted_by_index(entry_views(entries@)),
{
    let mut out: Vec<TocEntry> = Vec::new();
    let ghost all = entry_views(entries@);
    let mut i: usize = 0;
    assert(entry_views(out@) =~= sorted_by_index(all.take(0)));
    while i < entries.len()
        invariant
            i <= entries.len(),
            all == entry_views(entries@),
            entry_views(out@) == sorted_by_index(all.take(i as int)),
        decreases entries.len() - i,
    {
        let ghost sorted = entry_views(out@);
        let e = entries[i].duplicate();
        proof {
            lemma_sorted(all.take(i as int));
        }
        let mut pos: usize = out.len();
        while pos > 0 && out[pos - 1].index > e.index
            invariant
                pos <= out.len(),
                entry_views(out@) == sorted,
                forall|k: int| pos <= k < out.len() ==> sorted[k].index > e.index,
            decreases pos,
        {
            pos -= 1;
        }
        proof {
            assert forall|k: int| 0 <= k < pos implies sorted[k].index <= e.index by {
                assert(sorted[pos - 1].index <= e.index);
                if k < pos - 1 {
                    assert(sorted[k].index <= sorted[pos - 1].index);
                }
            }
            lemma_count_split(sorted, e.index, pos as int);
            assert(all.take(i + 1).drop_last() =~= all.take(i as int));
            assert(all.take(i + 1).last() == e@);
        }
        out.insert(pos, e);
        assert(entry_views(out@) =~= placed(sorted, all[i as int]));
        i += 1;
    }
    assert(all.take(entries.len() as int) =~= all);
    out
}

// ---------------------------------------------------------------------------
// Duplicates
// ---------------------------------------------------------------------------

/// Some entry of `s` has the URL `url`.
pub open spec fn url_listed(s: Seq<TocEntryView>, url: Seq<char>) -> bool {
    exists|i: int| 0 <= i < s.len() && s[i].url == url
}

/// `s` without the entries whose URL an earlier entry has.
pub open spec fn first_by_url(s: Seq<TocEntryView>) -> Seq<TocEntryView>
    decreases s.len(),
{
    if s.len() == 0 {
        Seq::<TocEntryView>::empty()
    } else if url_listed(s.drop_last(), s.last().url) {
        first_by_url(s.drop_last())
    } else {
        first_by_url(s.drop_last()).push(s.last())
    }
}

/// Dropping later duplicates keeps every URL, and keeps none twice.
pub proof fn lemma_first_by_url(s: Seq<TocEntryView>)
    ensures
        first_by_url(s).len() <= s.len(),
        forall|u: Seq<char>| url_listed(first_by_url(s), u) <==> url_listed(s, u),
        forall|i: int, j: int|
            0 <= i < j < first_by_url(s).len() ==> first_by_url(s)[i].url != first_by_url(
                s,
            )[j].url,
        forall|x: TocEntryView| listed(first_by_url(s), x) ==> listed(s, x),
    decreases s.len(),
{
    if s.len() > 0 {
        let front = s.drop_last();
        let last = s.last();
        lemma_first_by_url(front);
        let d = first_by_url(front);
        let out = first_by_url(s);
        assert forall|u: Seq<char>| url_listed(out, u) <==> url_listed(s, u) by {
            if url_listed(out, u) {
                let i = choose|i: int| 0 <= i < out.len() && out[i].url == u;
                if i < d.len() {
                    assert(d[i].url == u);
                    assert(url_listed(front, u));
                    let k = choose|k: int| 0 <= k < front.len() && front[k].url == u;
                    assert(s[k].url == u);
                } else {
                    assert(s[s.len() - 1].url == u);
                }
            }
            if url_listed(s, u) {
                let k = choose|k: int| 0 <= k < s.len() && s[k].url == u;
                if k < front.len() {
                    assert(front[k].url == u);
                    assert(url_listed(front, u));
                    assert(url_listed(d, u));
                    let i = choose|i: int| 0 <= i < d.len() && d[i].url == u;
                    assert(out[i].url == u);
                } else if url_listed(front, last.url) {
                    assert(last.url == u);
                    assert(url_listed(front, u));
                    assert(url_listed(d, u));
                } else {
                    assert(out[out.len() - 1].url == u);
                }
            }
        }
        assert forall|i: int, j: int| 0 <= i < j < out.len() implies out[i].url != out[j].url by {
            if j == d.len() {
                assert(out[i] == d[i]);
                if out[i].url == out[j].url {
                    assert(url_listed(d, last.url));
                }
            }
        }
        assert forall|x: TocEntryView| listed(out, x) implies listed(s, x) by {
            let i = choose|i: int| 0 <= i < out.len() && out[i] == x;
            if i < d.len() {
                assert(d[i] == x);
                assert(listed(front, x));
                let k = choose|k: int| 0 <= k < front.len() && front[k] == x;
                assert(s[k] == x);
            } else {
                assert(s[s.len() - 1] == x);
            }
        }
    }
}

fn same_text(a: &String, b: &String) -> (r: bool)
    ensures
        r == (a@ == b@),
{
    *a == *b
}

/// Drops every entry whose URL an earlier entry has.
pub fn dedup_by_url(entries: Vec<TocEntry>) -> (out: Vec<TocEntry>)
    ensures
        entry_views(out@) == first_by_url(entry_views(entries@)),
{
    let mut out: Vec<TocEntry> = Vec::new();
    let ghost all = entry_views(entries@);
    let mut i: usize = 0;
    assert(entry_views(out@) =~= first_by_url(all.take(0)));
    while i < entries.len()
        invariant
            i <= entries.len(),
            all == entry_views(entries@),
            entry_views(out@) == first_by_url(all.take(i as int)),
        decreases entries.len() - i,
    {
        let ghost kept = entry_views(out@);
        proof {
            lemma_first_by_url(all.take(i as int));
            assert(all.take(i + 1).drop_last() =~= all.take(i as int));
        }
        let mut seen = false;
        let mut k: usize = 0;
        while k < out.len() && !seen
            invariant
                k <= out.len(),
                i < entries.len(),
                kept == entry_views(out@),
                all == entry_views(entries@),
                seen ==> url_listed(kept, all[i as int].url),
                !seen ==> forall|m: int| 0 <= m < k ==> kept[m].url != all[i as int].url,
            decreases out.len() - k + if seen { 0int } else { 1int },
        {
            if same_text(&out[k].url, &entries[i].url) {
                assert(kept[k as int].url == all[i as int].url);
                seen = true;
            } else {
                k += 1;
            }
        }
        if !seen {
            out.push(entries[i].duplicate());
            assert(entry_views(out@) =~= kept.push(all[i as int]));
        }
        i += 1;
    }
    assert(all.take(entries.len() as int) =~= all);
    out
}

// ---------------------------------------------------------------------------
// Range of chapters, locked chapters
// ---------------------------------------------------------------------------

pub open spec fn in_range(index: u32, range: Option<(u32, u32)>) -> bool {
    match range {
        Some(r) => r.0 <= index <= r.1,
        None => true,
    }
}

/// The entries of `s` whose index lies in `range`, in the order of `s`.
pub open spec fn within_range(s: Seq<TocEntryView>, range: Option<(u32, u32)>) -> Seq<
    TocEntryView,
>
    decreases s.len(),
{
    if s.len() == 0 {
        Seq::<TocEntryView>::empty()
    } else if in_range(s.last().index, range) {
        within_range(s.drop_last(), range).push(s.last())
    } else {
        within_range(s.drop_last(), range)
    }
}

/// How many entries of `s` are locked.
pub open spec fn locked_count(s: Seq<TocEntryView>) -> nat
    decreases s.len(),
{
    if s.len() == 0 {
        0
    } else {
        locked_count(s.drop_last()) + if s.last().unlocked {
            0nat
        } else {
            1nat
        }
    }
}

/// Keeps the entries whose index lies in the inclusive range; all of them
/// without a range.
pub fn filter_range(entries: Vec<TocEntry>, range: Option<(u32, u32)>) -> (out: Vec<TocEntry>)
    ensures
        entry_views(out@) == within_range(entry_views(entries@), range),
{
    let mut out: Vec<TocEntry> = Vec::new();
    let ghost all = entry_views(entries@);
    let mut i: usize = 0;
    assert(entry_views(out@) =~= within_range(all.take(0), range));
    while i < entries.len()
        invariant
            i <= entries.len(),
            all == entry_views(entries@),
            entry_views(out@) == within_range(all.take(i as int), range),
        decreases entries.len() - i,
    {
        let ghost kept = entry_views(out@);
        assert(all.take(i + 1).drop_last() =~= all.take(i as int));
        let index = entries[i].index;
        let keep = match range {
            Some((from, to)) => from <= index && index <= to,
            None => true,
        };
        if keep {
            out.push(entries[i].duplicate());
            assert(entry_views(out@) =~= kept.push(all[i as int]));
        }
        i += 1;
    }
    assert(all.take(entries.len() as int) =~= all);
    out
}

/// Counts the locked entries.
pub fn count_locked(entries: &Vec<TocEntry>) -> (n: usize)
    ensures
        n == locked_count(entry_views(entries@)),
{
    let ghost all = entry_views(entries@);
    let mut n: usize = 0;
    let mut i: usize = 0;
    while i < entries.len()
        invariant
            i <= entries.len(),
            all == entry_views(entries@),
            n == locked_count(all.take(i as int)),
            n <= i,
        decreases entries.len() - i,
    {
        assert(all.take(i + 1).drop_last() =~= all.take(i as int));
        if !entries[i].unlocked {
            n += 1;
        }
        i += 1;
    }
    assert(all.take(entries.len() as int) =~= all);
    n
}

} // verus!
