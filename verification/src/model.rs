//! Canonical data model for scraped fiction: one `Book` of ordered `Chapter`s.

use vstd::prelude::*;

verus! {

/// One chapter in reading order.
#[derive(Debug, Clone)]
pub struct Chapter {
    pub title: String,
    /// 1-based position in the table of contents.
    pub index: u32,
    /// Plain text, or markup made of paragraphs only.
    pub body: String,
}

/// One story or series.
#[derive(Debug, Clone)]
pub struct Book {
    pub title: String,
    pub author: String,
    pub description: Option<String>,
    pub cover_url: Option<String>,
    pub chapters: Vec<Chapter>,
    /// Where the book was crawled from; guards a resumed crawl.
    pub source_url: Option<String>,
}

/// What a `Chapter` holds, as mathematical values.
pub ghost struct ChapterView {
    pub title: Seq<char>,
    pub index: u32,
    pub body: Seq<char>,
}

/// What a `Book` holds, as mathematical values.
pub ghost struct BookView {
    pub title: Seq<char>,
    pub author: Seq<char>,
    pub description: Option<Seq<char>>,
    pub cover_url: Option<Seq<char>>,
    pub chapters: Seq<ChapterView>,
    pub source_url: Option<Seq<char>>,
}

/// The characters of an optional string.
pub open spec fn opt_text(o: Option<String>) -> Option<Seq<char>> {
    match o {
        Some(s) => Some(s@),
        None => None,
    }
}

pub open spec fn chapter_views(s: Seq<Chapter>) -> Seq<ChapterView> {
    s.map_values(|c: Chapter| c@)
}

impl View for Chapter {
    type V = ChapterView;

    open spec fn view(&self) -> ChapterView {
        ChapterView { title: self.title@, index: self.index, body: self.body@ }
    }
}

impl View for Book {
    type V = BookView;

    open spec fn view(&self) -> BookView {
        BookView {
            title: self.title@,
            author: self.author@,
            description: opt_text(self.description),
            cover_url: opt_text(self.cover_url),
            chapters: chapter_views(self.chapters@),
            source_url: opt_text(self.source_url),
        }
    }
}

// ---------------------------------------------------------------------------
// Ordered chapter lists
// ---------------------------------------------------------------------------

/// Chapters stand in strictly ascending order of index: sorted, no index twice.
pub open spec fn ascending(chs: Seq<ChapterView>) -> bool {
    forall|i: int, j: int| 0 <= i < j < chs.len() ==> chs[i].index < chs[j].index
}

/// Some chapter of `chs` has the index `index`.
pub open spec fn has_index(chs: Seq<ChapterView>, index: u32) -> bool {
    exists|i: int| 0 <= i < chs.len() && chs[i].index == index
}

/// How many chapters of `chs` have an index below `index`.
pub open spec fn rank(chs: Seq<ChapterView>, index: u32) -> nat
    decreases chs.len(),
{
    if chs.len() == 0 {
        0
    } else {
        rank(chs.drop_last(), index) + if chs.last().index < index {
            1nat
        } else {
            0nat
        }
    }
}

/// `chs` with `c` put in behind the chapters of smaller index.
pub open spec fn inserted(chs: Seq<ChapterView>, c: ChapterView) -> Seq<ChapterView> {
    chs.insert(rank(chs, c.index) as int, c)
}

/// A position that splits `chs` into smaller and not-smaller indices is the rank.
pub proof fn lemma_rank_split(chs: Seq<ChapterView>, index: u32, r: int)
    requires
        0 <= r <= chs.len(),
        forall|i: int| 0 <= i < r ==> chs[i].index < index,
        forall|i: int| r <= i < chs.len() ==> chs[i].index >= index,
    ensures
        rank(chs, index) == r,
    decreases chs.len(),
{
    if chs.len() > 0 {
        let front = chs.drop_last();
        if r == chs.len() {
            lemma_rank_split(front, index, r - 1);
        } else {
            lemma_rank_split(front, index, r);
        }
    }
}

/// In an ascending list the rank splits smaller from not-smaller indices.
pub proof fn lemma_rank_ascending(chs: Seq<ChapterView>, index: u32)
    requires
        ascending(chs),
    ensures
        rank(chs, index) <= chs.len(),
        forall|i: int| 0 <= i < rank(chs, index) ==> chs[i].index < index,
        forall|i: int| rank(chs, index) <= i < chs.len() ==> chs[i].index >= index,
    decreases chs.len(),
{
    if chs.len() > 0 {
        let front = chs.drop_last();
        assert(ascending(front));
        lemma_rank_ascending(front, index);
        let rf = rank(front, index) as int;
        if chs.last().index < index {
            assert forall|i: int| 0 <= i < front.len() implies front[i].index < index by {
                assert(chs[i].index < chs[chs.len() - 1].index);
            }
            if rf < front.len() {
                assert(front[rf].index >= index);
            }
            assert forall|i: int| 0 <= i < rank(chs, index) implies chs[i].index < index by {
                if i < front.len() {
                    assert(chs[i] == front[i]);
                }
            }
        } else {
            assert forall|i: int| 0 <= i < rank(chs, index) implies chs[i].index < index by {
                assert(chs[i] == front[i]);
            }
            assert forall|i: int| rank(chs, index) <= i < chs.len() implies chs[i].index
                >= index by {
                if i < front.len() {
                    assert(chs[i] == front[i]);
                }
            }
        }
    }
}

/// Inserting a chapter whose index is new keeps the list ascending, and
/// the indices present afterwards are the old ones and the new one.
pub proof fn lemma_inserted(chs: Seq<ChapterView>, c: ChapterView)
    requires
        ascending(chs),
        !has_index(chs, c.index),
    ensures
        ascending(inserted(chs, c)),
        inserted(chs, c).len() == chs.len() + 1,
        forall|k: u32| has_index(inserted(chs, c), k) <==> (k == c.index || has_index(chs, k)),
{
    lemma_rank_ascending(chs, c.index);
    let r = rank(chs, c.index) as int;
    let out = inserted(chs, c);
    assert forall|i: int| r <= i < chs.len() implies chs[i].index > c.index by {
        assert(chs[i].index >= c.index);
    }
    assert forall|i: int, j: int| 0 <= i < j < out.len() implies out[i].index < out[j].index by {
        if j < r {
            assert(out[i] == chs[i] && out[j] == chs[j]);
        } else if j == r {
            assert(out[i] == chs[i]);
        } else if i < r {
            assert(out[i] == chs[i] && out[j] == chs[j - 1]);
        } else if i == r {
            assert(out[j] == chs[j - 1]);
        } else {
            assert(out[i] == chs[i - 1] && out[j] == chs[j - 1]);
        }
    }
    assert forall|k: u32| has_index(out, k) <==> (k == c.index || has_index(chs, k)) by {
        if has_index(out, k) {
            let i = choose|i: int| 0 <= i < out.len() && out[i].index == k;
            if i < r {
                assert(chs[i].index == k);
            } else if i > r {
                assert(chs[i - 1].index == k);
            }
        }
        if k == c.index {
            assert(out[r].index == k);
        }
        if has_index(chs, k) {
            let i = choose|i: int| 0 <= i < chs.len() && chs[i].index == k;
            if i < r {
                assert(out[i].index == k);
            } else {
                assert(out[i + 1].index == k);
            }
        }
    }
}

/// The chapters of `chs` in ascending order of index; of the chapters
/// with one index only the first.
pub open spec fn normalized(chs: Seq<ChapterView>) -> Seq<ChapterView>
    decreases chs.len(),
{
    if chs.len() == 0 {
        Seq::<ChapterView>::empty()
    } else if has_index(normalized(chs.drop_last()), chs.last().index) {
        normalized(chs.drop_last())
    } else {
        inserted(normalized(chs.drop_last()), chs.last())
    }
}

/// Normalized chapters are in order; and chapters that are in order
/// stay as they are, so a well-formed book is resumed as it is.
pub proof fn law_normalized(chs: Seq<ChapterView>)
    ensures
        ascending(normalized(chs)),
        ascending(chs) ==> normalized(chs) == chs,
    decreases chs.len(),
{
    if chs.len() > 0 {
        let front = chs.drop_last();
        let last = chs.last();
        law_normalized(front);
        if !has_index(normalized(front), last.index) {
            lemma_inserted(normalized(front), last);
        }
        if ascending(chs) {
            assert(ascending(front));
            assert forall|i: int| 0 <= i < front.len() implies front[i].index < last.index by {
                assert(chs[i].index < chs[chs.len() - 1].index);
            }
            lemma_rank_split(front, last.index, front.len() as int);
            assert(inserted(front, last) =~= chs);
        }
    }
}

impl Chapter {
    /// A copy with the same title, index and body.
    pub fn duplicate(&self) -> (c: Chapter)
        ensures
            c@ == self@,
    {
        Chapter { title: self.title.clone(), index: self.index, body: self.body.clone() }
    }
}

/// A copy of an optional string.
pub fn copy_opt_text(o: &Option<String>) -> (r: Option<String>)
    ensures
        opt_text(r) == opt_text(*o),
{
    match o {
        Some(s) => Some(s.clone()),
        None => None,
    }
}

impl Book {
    /// The book's invariant: chapters in strictly ascending order of index.
    pub open spec fn wf(&self) -> bool {
        ascending(self@.chapters)
    }

    /// Whether the chapters stand in strictly ascending order of index.
    pub fn is_well_formed(&self) -> (r: bool)
        ensures
            r == self.wf(),
    {
        let n = self.chapters.len();
        if n < 2 {
            return true;
        }
        let mut i: usize = 1;
        while i < n
            invariant
                1 <= i <= n,
                n == self.chapters.len(),
                forall|a: int, b: int|
                    0 <= a < b < i ==> self@.chapters[a].index < self@.chapters[b].index,
            decreases n - i,
        {
            if self.chapters[i - 1].index >= self.chapters[i].index {
                assert(!(self@.chapters[i - 1].index < self@.chapters[i as int].index));
                return false;
            }
            assert forall|a: int, b: int| 0 <= a < b < i + 1 implies self@.chapters[a].index
                < self@.chapters[b].index by {
                if b == i && a < i - 1 {
                    assert(self@.chapters[a].index < self@.chapters[i - 1].index);
                }
            }
            i += 1;
        }
        true
    }

    /// A full copy of the book as it stands.
    pub fn snapshot(&self) -> (b: Book)
        ensures
            b@ == self@,
    {
        let mut chapters: Vec<Chapter> = Vec::new();
        let mut i: usize = 0;
        while i < self.chapters.len()
            invariant
                i <= self.chapters.len(),
                chapters.len() == i,
                forall|k: int| 0 <= k < i ==> chapters@[k]@ == self.chapters@[k]@,
            decreases self.chapters.len() - i,
        {
            chapters.push(self.chapters[i].duplicate());
            i += 1;
        }
        assert(chapter_views(chapters@) =~= chapter_views(self.chapters@));
        Book {
            title: self.title.clone(),
            author: self.author.clone(),
            description: copy_opt_text(&self.description),
            cover_url: copy_opt_text(&self.cover_url),
            chapters,
            source_url: copy_opt_text(&self.source_url),
        }
    }

    /// A copy of the book with its chapters in ascending order of index
    /// and no index twice: a book that is well formed already is copied
    /// as it is.
    pub fn normalized_copy(&self) -> (b: Book)
        ensures
            b@ == (BookView { chapters: normalized(self@.chapters), ..self@ }),
            b.wf(),
    {
        let ghost all = self@.chapters;
        let mut b = Book {
            title: self.title.clone(),
            author: self.author.clone(),
            description: copy_opt_text(&self.description),
            cover_url: copy_opt_text(&self.cover_url),
            chapters: Vec::new(),
            source_url: copy_opt_text(&self.source_url),
        };
        assert(b@.chapters =~= normalized(all.take(0)));
        let mut i: usize = 0;
        while i < self.chapters.len()
            invariant
                i <= self.chapters.len(),
                all == self@.chapters,
                b@ == (BookView { chapters: normalized(all.take(i as int)), ..self@ }),
                b.wf(),
            decreases self.chapters.len() - i,
        {
            assert(all.take(i + 1).drop_last() =~= all.take(i as int));
            assert(all.take(i + 1).last() == all[i as int]);
            if !b.has_chapter(self.chapters[i].index) {
                b.insert_chapter(self.chapters[i].duplicate());
            }
            i += 1;
        }
        assert(all.take(self.chapters.len() as int) =~= all);
        b
    }

    /// Whether a chapter with this index is present.
    pub fn has_chapter(&self, index: u32) -> (r: bool)
        ensures
            r == has_index(self@.chapters, index),
    {
        let mut i: usize = 0;
        while i < self.chapters.len()
            invariant
                i <= self.chapters.len(),
                forall|k: int| 0 <= k < i ==> self@.chapters[k].index != index,
            decreases self.chapters.len() - i,
        {
            if self.chapters[i].index == index {
                assert(self@.chapters[i as int].index == index);
                return true;
            }
            i += 1;
        }
        false
    }

    /// Puts a chapter with a new index in its place among the others.
    pub fn insert_chapter(&mut self, chapter: Chapter)
        requires
            old(self).wf(),
            !has_index(old(self)@.chapters, chapter.index),
        ensures
            final(self)@ == (BookView {
                chapters: inserted(old(self)@.chapters, chapter@),
                ..old(self)@
            }),
            final(self).wf(),
    {
        let n = self.chapters.len();
        let mut pos: usize = 0;
        while pos < n && self.chapters[pos].index < chapter.index
            invariant
                pos <= n,
                n == self.chapters.len(),
                *self == *old(self),
                forall|k: int| 0 <= k < pos ==> self@.chapters[k].index < chapter.index,
            decreases n - pos,
        {
            pos += 1;
        }
        proof {
            let chs = self@.chapters;
            assert forall|k: int| pos <= k < chs.len() implies chs[k].index >= chapter.index by {
                if k > pos {
                    assert(chs[pos as int].index < chs[k].index);
                }
            }
            lemma_rank_split(chs, chapter.index, pos as int);
            lemma_inserted(chs, chapter@);
        }
        self.chapters.insert(pos, chapter);
        assert(chapter_views(self.chapters@) =~= inserted(old(self)@.chapters, chapter@));
    }
}

} // verus!
