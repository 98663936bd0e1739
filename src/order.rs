use vstd::prelude::*;

use crate::cursor::{next_selection, previous_selection, ListCursor};
use crate::page::{date_created, Page};
use crate::text::chars_of;

verus! {

/// What the page list can be ordered by.
#[derive(Clone, Copy, Debug, PartialEq, Eq, Structural)]
pub enum SortType {
    Title,
    CreatedOn,
}

/// Which way the page list is ordered.
#[derive(Clone, Copy, Debug, PartialEq, Eq, Structural)]
pub enum SortDirection {
    Asc,
    Desc,
}

impl SortType {
    /// The name that the picker shows.
    pub fn name(self) -> (r: &'static str)
        ensures
            r@ == match self {
                SortType::Title => "Title"@,
                SortType::CreatedOn => "Created Date"@,
            },
    {
        match self {
            SortType::Title => "Title",
            SortType::CreatedOn => "Created Date",
        }
    }
}

impl SortDirection {
    /// The name that the picker shows.
    pub fn name(self) -> (r: &'static str)
        ensures
            r@ == match self {
                SortDirection::Asc => "Asc"@,
                SortDirection::Desc => "Desc"@,
            },
    {
        match self {
            SortDirection::Asc => "Asc",
            SortDirection::Desc => "Desc",
        }
    }
}

/// How many sort types the picker offers.
pub const SORT_TYPE_COUNT: usize = 2;

/// The sort type shown at row `i` of the picker.
pub open spec fn sort_type_at(i: usize) -> SortType {
    if i == 0 {
        SortType::CreatedOn
    } else {
        SortType::Title
    }
}

/// The other direction.
pub open spec fn flip(d: SortDirection) -> SortDirection {
    match d {
        SortDirection::Asc => SortDirection::Desc,
        SortDirection::Desc => SortDirection::Asc,
    }
}

/// The sort picker: the sort type and direction it shows, and the ones it
/// had when it was opened, to go back to on cancel.
#[derive(Clone, Copy, Debug)]
pub struct Sort {
    /// Row of the picker's list of sort types.
    pub type_cursor: ListCursor,
    pub dir: SortDirection,
    pub saved_cursor: ListCursor,
    pub saved_dir: SortDirection,
}

/// The picker as it starts: creation date, ascending, on the first row.
pub open spec fn initial_sort() -> Sort {
    Sort {
        type_cursor: ListCursor { selected: Some(0usize), offset: 0 },
        dir: SortDirection::Asc,
        saved_cursor: ListCursor { selected: Some(0usize), offset: 0 },
        saved_dir: SortDirection::Asc,
    }
}

impl Sort {
    pub open spec fn wf(self) -> bool {
        self.type_cursor.valid_for(SORT_TYPE_COUNT as nat) && self.saved_cursor.valid_for(
            SORT_TYPE_COUNT as nat,
        )
    }

    /// The sort type at the picker's row, if a row is selected.
    pub open spec fn selected_type(self) -> Option<SortType> {
        match self.type_cursor.selected {
            Some(i) => Some(sort_type_at(i)),
            None => None,
        }
    }

    /// On opening: remembers the type and direction shown.
    pub open spec fn started(self) -> Sort {
        Sort { saved_cursor: self.type_cursor, saved_dir: self.dir, ..self }
    }

    /// Flips the direction shown.
    pub open spec fn toggled(self) -> Sort {
        Sort { dir: flip(self.dir), ..self }
    }

    /// On cancel: shows again what was remembered on opening.
    pub open spec fn cancelled(self) -> Sort {
        Sort { type_cursor: self.saved_cursor, dir: self.saved_dir, ..self }
    }

    /// On confirm: what is shown becomes what is remembered.
    pub open spec fn confirmed(self) -> Sort {
        Sort { saved_cursor: self.type_cursor, saved_dir: self.dir, ..self }
    }

    /// Creation date, ascending, on the first row.
    pub fn new() -> (s: Sort)
        ensures
            s == initial_sort(),
            s.wf(),
            s.selected_type() == Some(SortType::CreatedOn),
    {
        Sort {
            type_cursor: ListCursor::first(),
            dir: SortDirection::Asc,
            saved_cursor: ListCursor::first(),
            saved_dir: SortDirection::Asc,
        }
    }

    /// The sort type and direction that the picker shows, if a type is
    /// selected.
    pub fn get_selected_sort(&self) -> (r: Option<(SortType, SortDirection)>)
        ensures
            r == match self.selected_type() {
                Some(t) => Some((t, self.dir)),
                None => None,
            },
    {
        match self.type_cursor.selected {
            Some(i) => {
                let t = if i == 0 {
                    SortType::CreatedOn
                } else {
                    SortType::Title
                };
                Some((t, self.dir))
            },
            None => None,
        }
    }

    pub fn start(&mut self)
        ensures
            *final(self) == old(self).started(),
    {
        self.saved_cursor = self.type_cursor;
        self.saved_dir = self.dir;
    }

    pub fn toggle_dir(&mut self)
        ensures
            *final(self) == old(self).toggled(),
    {
        self.dir = match self.dir {
            SortDirection::Asc => SortDirection::Desc,
            SortDirection::Desc => SortDirection::Asc,
        };
    }

    pub fn cancel(&mut self)
        ensures
            *final(self) == old(self).cancelled(),
    {
        self.type_cursor = self.saved_cursor;
        self.dir = self.saved_dir;
    }

    pub fn confirm(&mut self)
        ensures
            *final(self) == old(self).confirmed(),
    {
        self.saved_cursor = self.type_cursor;
        self.saved_dir = self.dir;
    }

    /// Moves the picker's row down, wrapping round.
    pub fn next(&mut self)
        ensures
            final(self).type_cursor.selected == next_selection(
                old(self).type_cursor.selected,
                SORT_TYPE_COUNT as nat,
            ),
            final(self).type_cursor.offset == old(self).type_cursor.offset,
            final(self).dir == old(self).dir,
            final(self).saved_cursor == old(self).saved_cursor,
            final(self).saved_dir == old(self).saved_dir,
            old(self).wf() ==> final(self).wf(),
    {
        self.type_cursor.next(SORT_TYPE_COUNT);
    }

    /// Moves the picker's row up, wrapping round.
    pub fn previous(&mut self)
        ensures
            final(self).type_cursor.selected == previous_selection(
                old(self).type_cursor.selected,
                SORT_TYPE_COUNT as nat,
            ),
            final(self).type_cursor.offset == old(self).type_cursor.offset,
            final(self).dir == old(self).dir,
            final(self).saved_cursor == old(self).saved_cursor,
            final(self).saved_dir == old(self).saved_dir,
            old(self).wf() ==> final(self).wf(),
    {
        self.type_cursor.previous(SORT_TYPE_COUNT);
    }
}

/// Opening the picker, flipping the direction and cancelling leaves the sort
/// type and direction as they were before the picker was opened.
pub proof fn lemma_cancel_restores(s: Sort)
    ensures
        s.started().toggled().cancelled().type_cursor == s.type_cursor,
        s.started().toggled().cancelled().dir == s.dir,
        s.started().toggled().cancelled().selected_type() == s.selected_type(),
{
}

/// Opening the picker, flipping the direction and confirming flips the
/// direction in force, keeps the sort type, and the pages sorted by them come
/// in the new direction, the same pages as before.
pub proof fn lemma_confirm_flips(s: Sort, pages: Seq<Page>)
    ensures
        s.started().toggled().confirmed().dir == flip(s.dir),
        s.started().toggled().confirmed().saved_dir == flip(s.dir),
        s.started().toggled().confirmed().selected_type() == s.selected_type(),
        forall|k: SortType|
            s.selected_type() == Some(k) ==> is_sorted(
                #[trigger] sorted_pages(pages, k, flip(s.dir)),
                k,
                flip(s.dir),
            ) && sorted_pages(pages, k, flip(s.dir)).to_multiset() == pages.to_multiset(),
{
    assert forall|k: SortType|
        s.selected_type() == Some(k) implies is_sorted(
        #[trigger] sorted_pages(pages, k, flip(s.dir)),
        k,
        flip(s.dir),
    ) && sorted_pages(pages, k, flip(s.dir)).to_multiset() == pages.to_multiset() by {
        lemma_sorted_pages(pages, k, flip(s.dir));
    }
}

/// Lexicographic order on character sequences, character by character by code
/// point; a sequence comes before every longer sequence that it begins.
pub open spec fn chars_le(a: Seq<char>, b: Seq<char>) -> bool
    decreases a.len(),
{
    if a.len() == 0 {
        true
    } else if b.len() == 0 {
        false
    } else if a[0] as u32 != b[0] as u32 {
        (a[0] as u32) < (b[0] as u32)
    } else {
        chars_le(a.drop_first(), b.drop_first())
    }
}

/// The value a page is ordered by.
pub open spec fn sort_key(p: Page, kind: SortType) -> Seq<char> {
    match kind {
        SortType::Title => p.title@,
        SortType::CreatedOn => date_created(p),
    }
}

/// `p` may stand before `q` in a list ordered by `kind` in direction `dir`.
pub open spec fn goes_before(p: Page, q: Page, kind: SortType, dir: SortDirection) -> bool {
    match dir {
        SortDirection::Asc => chars_le(sort_key(p, kind), sort_key(q, kind)),
        SortDirection::Desc => chars_le(sort_key(q, kind), sort_key(p, kind)),
    }
}

/// Every page of `s` may stand before each page after it.
pub open spec fn is_sorted(s: Seq<Page>, kind: SortType, dir: SortDirection) -> bool {
    forall|i: int, j: int| 0 <= i < j < s.len() ==> goes_before(#[trigger] s[i], #[trigger] s[j], kind, dir)
}

/// `s` with `x` placed after the last page that may stand before it, the
/// pages behind that one moving back by one.
pub open spec fn insert_sorted(s: Seq<Page>, x: Page, kind: SortType, dir: SortDirection) -> Seq<Page>
    decreases s.len(),
{
    if s.len() == 0 {
        seq![x]
    } else if goes_before(s.last(), x, kind, dir) {
        s.push(x)
    } else {
        insert_sorted(s.drop_last(), x, kind, dir).push(s.last())
    }
}

/// `s` in stable order by `kind` in direction `dir`: pages with equal keys
/// keep the order they had in `s`.
pub open spec fn sorted_pages(s: Seq<Page>, kind: SortType, dir: SortDirection) -> Seq<Page>
    decreases s.len(),
{
    if s.len() == 0 {
        s
    } else {
        insert_sorted(sorted_pages(s.drop_last(), kind, dir), s.last(), kind, dir)
    }
}

proof fn lemma_chars_le_total(a: Seq<char>, b: Seq<char>)
    ensures
        chars_le(a, b) || chars_le(b, a),
    decreases a.len(),
{
    if a.len() > 0 && b.len() > 0 && a[0] as u32 == b[0] as u32 {
        lemma_chars_le_total(a.drop_first(), b.drop_first());
    }
}

proof fn lemma_chars_le_transitive(a: Seq<char>, b: Seq<char>, c: Seq<char>)
    requires
        chars_le(a, b),
        chars_le(b, c),
    ensures
        chars_le(a, c),
    decreases a.len(),
{
    if a.len() > 0 && b.len() > 0 && c.len() > 0 && a[0] as u32 == b[0] as u32 && b[0] as u32
        == c[0] as u32 {
        lemma_chars_le_transitive(a.drop_first(), b.drop_first(), c.drop_first());
    }
}

proof fn lemma_goes_before_total(p: Page, q: Page, kind: SortType, dir: SortDirection)
    ensures
        goes_before(p, q, kind, dir) || goes_before(q, p, kind, dir),
{
    lemma_chars_le_total(sort_key(p, kind), sort_key(q, kind));
}

proof fn lemma_goes_before_transitive(p: Page, q: Page, r: Page, kind: SortType, dir: SortDirection)
    requires
        goes_before(p, q, kind, dir),
        goes_before(q, r, kind, dir),
    ensures
        goes_before(p, r, kind, dir),
{
    match dir {
        SortDirection::Asc => lemma_chars_le_transitive(
            sort_key(p, kind),
            sort_key(q, kind),
            sort_key(r, kind),
        ),
        SortDirection::Desc => lemma_chars_le_transitive(
            sort_key(r, kind),
            sort_key(q, kind),
            sort_key(p, kind),
        ),
    }
}

/// Inserting into a sorted list keeps it sorted, and adds exactly `x`.
proof fn lemma_insert_sorted(s: Seq<Page>, x: Page, kind: SortType, dir: SortDirection)
    requires
        is_sorted(s, kind, dir),
    ensures
        is_sorted(insert_sorted(s, x, kind, dir), kind, dir),
        insert_sorted(s, x, kind, dir).to_multiset() == s.to_multiset().insert(x),
        insert_sorted(s, x, kind, dir).len() == s.len() + 1,
        forall|y: Page|
            #![trigger insert_sorted(s, x, kind, dir).contains(y)]
            insert_sorted(s, x, kind, dir).contains(y) ==> y == x || s.contains(y),
    decreases s.len(),
{
    broadcast use vstd::seq_lib::group_to_multiset_ensures;

    let r = insert_sorted(s, x, kind, dir);
    if s.len() == 0 {
        assert(r.to_multiset() =~= s.to_multiset().insert(x)) by {
            assert(r == Seq::<Page>::empty().push(x));
        }
    } else if goes_before(s.last(), x, kind, dir) {
        assert forall|i: int, j: int| 0 <= i < j < r.len() implies goes_before(
            #[trigger] r[i],
            #[trigger] r[j],
            kind,
            dir,
        ) by {
            if j == s.len() {
                if i < s.len() - 1 {
                    lemma_goes_before_transitive(s[i], s.last(), x, kind, dir);
                }
            }
        }
    } else {
        let t = s.drop_last();
        assert(is_sorted(t, kind, dir));
        lemma_insert_sorted(t, x, kind, dir);
        let u = insert_sorted(t, x, kind, dir);
        lemma_goes_before_total(s.last(), x, kind, dir);
        assert forall|i: int, j: int| 0 <= i < j < r.len() implies goes_before(
            #[trigger] r[i],
            #[trigger] r[j],
            kind,
            dir,
        ) by {
            if j == u.len() {
                assert(r[i] == u[i]);
                assert(u.contains(u[i]));
                if u[i] != x {
                    let k = choose|k: int| 0 <= k < t.len() && t[k] == u[i];
                    assert(s[k] == t[k]);
                    assert(goes_before(s[k], s[s.len() - 1], kind, dir));
                }
            }
        }
        assert(s =~= t.push(s.last()));
        assert forall|y: Page| #[trigger] r.contains(y) implies y == x || s.contains(y) by {
            if y != s.last() {
                let k = choose|k: int| 0 <= k < r.len() && r[k] == y;
                assert(u.contains(y));
                if y != x {
                    let m = choose|m: int| 0 <= m < t.len() && t[m] == y;
                    assert(s[m] == y);
                }
            } else {
                assert(s[s.len() - 1] == y);
            }
        }
        assert(r.to_multiset() =~= s.to_multiset().insert(x));
    }
}

/// The sorted list is in order and holds the same pages, each as many times,
/// as the list it came from.
pub proof fn lemma_sorted_pages(s: Seq<Page>, kind: SortType, dir: SortDirection)
    ensures
        is_sorted(sorted_pages(s, kind, dir), kind, dir),
        sorted_pages(s, kind, dir).to_multiset() == s.to_multiset(),
        sorted_pages(s, kind, dir).len() == s.len(),
    decreases s.len(),
{
    broadcast use vstd::seq_lib::group_to_multiset_ensures;

    if s.len() > 0 {
        lemma_sorted_pages(s.drop_last(), kind, dir);
        lemma_insert_sorted(sorted_pages(s.drop_last(), kind, dir), s.last(), kind, dir);
        assert(s =~= s.drop_last().push(s.last()));
    }
}

/// Whether `a` comes before or equals `b` in lexicographic order.
pub fn chars_le_exec(a: &Vec<char>, b: &Vec<char>) -> (r: bool)
    ensures
        r == chars_le(a@, b@),
{
    let mut i: usize = 0;
    proof {
        assert(a@.skip(0) =~= a@);
        assert(b@.skip(0) =~= b@);
    }
    while i < a.len() && i < b.len() && a[i] as u32 == b[i] as u32
        invariant
            i <= a@.len(),
            i <= b@.len(),
            chars_le(a@, b@) == chars_le(a@.skip(i as int), b@.skip(i as int)),
        decreases a@.len() - i,
    {
        proof {
            assert(a@.skip(i as int).drop_first() =~= a@.skip(i + 1));
            assert(b@.skip(i as int).drop_first() =~= b@.skip(i + 1));
        }
        i += 1;
    }
    proof {
        assert(a@.skip(i as int).len() == a@.len() - i);
        assert(b@.skip(i as int).len() == b@.len() - i);
    }
    if i == a.len() {
        true
    } else if i == b.len() {
        false
    } else {
        proof {
            assert(a@.skip(i as int)[0] == a@[i as int]);
            assert(b@.skip(i as int)[0] == b@[i as int]);
        }
        (a[i] as u32) < (b[i] as u32)
    }
}

/// The characters that `p` is ordered by.
fn sort_key_chars(p: &Page, kind: SortType) -> (r: Vec<char>)
    ensures
        r@ == sort_key(*p, kind),
{
    match kind {
        SortType::Title => chars_of(p.title.as_str()),
        SortType::CreatedOn => chars_of(p.get_date_created().as_str()),
    }
}

/// Whether `p` may stand before `q` in a list ordered by `kind` in direction
/// `dir`.
pub fn page_goes_before(p: &Page, q: &Page, kind: SortType, dir: SortDirection) -> (r: bool)
    ensures
        r == goes_before(*p, *q, kind, dir),
{
    let kp = sort_key_chars(p, kind);
    let kq = sort_key_chars(q, kind);
    match dir {
        SortDirection::Asc => chars_le_exec(&kp, &kq),
        SortDirection::Desc => chars_le_exec(&kq, &kp),
    }
}

/// Places `x` after the last page of `out` that may stand before it.
fn insert_page(out: &mut Vec<Page>, x: Page, kind: SortType, dir: SortDirection)
    ensures
        final(out)@ == insert_sorted(old(out)@, x, kind, dir),
{
    let ghost s = out@;
    let mut k: usize = out.len();
    proof {
        assert(s.take(k as int) =~= s);
        assert(s.skip(k as int) =~= Seq::<Page>::empty());
        assert(insert_sorted(s, x, kind, dir) + Seq::<Page>::empty() =~= insert_sorted(s, x, kind, dir));
    }
    while k > 0 && !page_goes_before(&out[k - 1], &x, kind, dir)
        invariant
            out@ == s,
            k <= s.len(),
            insert_sorted(s, x, kind, dir) == insert_sorted(s.take(k as int), x, kind, dir) + s.skip(
                k as int,
            ),
        decreases k,
    {
        proof {
            let t = s.take(k as int);
            assert(t.drop_last() =~= s.take(k - 1));
            assert(t.last() == s[k - 1]);
            assert(s.skip(k - 1) =~= seq![s[k - 1]] + s.skip(k as int));
            assert(insert_sorted(t, x, kind, dir) == insert_sorted(s.take(k - 1), x, kind, dir).push(
                s[k - 1],
            ));
            assert(insert_sorted(s.take(k - 1), x, kind, dir).push(s[k - 1]) + s.skip(k as int)
                =~= insert_sorted(s.take(k - 1), x, kind, dir) + s.skip(k - 1));
        }
        k -= 1;
    }
    proof {
        let t = s.take(k as int);
        if k == 0 {
            assert(insert_sorted(t, x, kind, dir) == seq![x]);
        } else {
            assert(t.last() == s[k - 1]);
            assert(insert_sorted(t, x, kind, dir) == t.push(x));
        }
        assert(insert_sorted(t, x, kind, dir) + s.skip(k as int) =~= s.insert(k as int, x));
    }
    out.insert(k, x);
}

/// `pages` in stable order by `kind` in direction `dir`.
pub fn sort_pages(pages: Vec<Page>, kind: SortType, dir: SortDirection) -> (r: Vec<Page>)
    ensures
        r@ == sorted_pages(pages@, kind, dir),
{
    let ghost s = pages@;
    let mut rest = pages;
    let mut out: Vec<Page> = Vec::new();
    let ghost mut i: int = 0;
    while rest.len() > 0
        invariant
            0 <= i <= s.len(),
            rest@ == s.skip(i),
            out@ == sorted_pages(s.take(i), kind, dir),
        decreases rest@.len(),
    {
        let x = rest.remove(0);
        proof {
            assert(s.take(i + 1).drop_last() =~= s.take(i));
            assert(x == s[i]);
        }
        insert_page(&mut out, x, kind, dir);
        proof {
            i = i + 1;
            assert(rest@ =~= s.skip(i));
        }
    }
    proof {
        assert(s.take(i) =~= s);
    }
    out
}

} // verus!
