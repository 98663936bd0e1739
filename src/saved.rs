use vstd::prelude::*;
use vstd::string::*;

use crate::page::Page;
use crate::text::same_text;

verus! {

/// Whether the user published the last edit of a page. A page with no entry
/// was not edited in this session.
#[derive(Clone, Copy, Debug, PartialEq, Eq, Structural)]
pub enum PageState {
    NotSaved,
    Saved,
}

/// Save states keyed by page identifier; a later entry for an identifier
/// takes the place of an earlier one.
#[derive(Debug)]
pub struct SaveStates {
    pub entries: Vec<(String, PageState)>,
}

/// The map that a list of entries describes.
pub open spec fn map_of(e: Seq<(String, PageState)>) -> Map<Seq<char>, PageState>
    decreases e.len(),
{
    if e.len() == 0 {
        Map::empty()
    } else {
        map_of(e.drop_last()).insert(e.last().0@, e.last().1)
    }
}

impl View for SaveStates {
    type V = Map<Seq<char>, PageState>;

    open spec fn view(&self) -> Map<Seq<char>, PageState> {
        map_of(self.entries@)
    }
}

/// What the page list shows before a title: a check mark for a page whose
/// edit was published, blanks otherwise.
pub open spec fn saved_mark(st: Option<PageState>) -> Seq<char> {
    match st {
        Some(PageState::Saved) => "\u{2713} "@,
        _ => "  "@,
    }
}

/// The state recorded for `id` in `m`, if any.
pub open spec fn state_in(m: Map<Seq<char>, PageState>, id: Seq<char>) -> Option<PageState> {
    if m.contains_key(id) {
        Some(m[id])
    } else {
        None
    }
}

impl SaveStates {
    /// No page edited yet.
    pub fn new() -> (s: SaveStates)
        ensures
            s@ == Map::<Seq<char>, PageState>::empty(),
    {
        SaveStates { entries: Vec::new() }
    }

    /// The state recorded for `id`, if any.
    pub fn get(&self, id: &str) -> (r: Option<PageState>)
        ensures
            r == state_in(self@, id@),
    {
        let ghost s = self.entries@;
        let mut i: usize = self.entries.len();
        proof {
            assert(s.take(i as int) =~= s);
        }
        while i > 0
            invariant
                i <= s.len(),
                s == self.entries@,
                state_in(map_of(s.take(i as int)), id@) == state_in(map_of(s), id@),
            decreases i,
        {
            proof {
                assert(s.take(i as int).drop_last() =~= s.take(i - 1));
                assert(s.take(i as int).last() == s[i - 1]);
            }
            if same_text(self.entries[i - 1].0.as_str(), id) {
                return Some(self.entries[i - 1].1);
            }
            i -= 1;
        }
        None
    }

    /// Forgets the state recorded for `id`.
    pub fn remove(&mut self, id: &str)
        ensures
            final(self)@ == old(self)@.remove(id@),
    {
        let ghost s = self.entries@;
        let mut rest: Vec<(String, PageState)> = Vec::new();
        std::mem::swap(&mut rest, &mut self.entries);
        let mut out: Vec<(String, PageState)> = Vec::new();
        let ghost mut i: int = 0;
        while rest.len() > 0
            invariant
                0 <= i <= s.len(),
                rest@ == s.skip(i),
                map_of(out@) == map_of(s.take(i)).remove(id@),
            decreases rest@.len(),
        {
            let e = rest.remove(0);
            proof {
                assert(s.take(i + 1).drop_last() =~= s.take(i));
                assert(e == s[i]);
            }
            if !same_text(e.0.as_str(), id) {
                let ghost before = out@;
                out.push(e);
                proof {
                    assert(out@.drop_last() =~= before);
                    assert(map_of(out@) =~= map_of(s.take(i + 1)).remove(id@));
                }
            } else {
                proof {
                    assert(map_of(out@) =~= map_of(s.take(i + 1)).remove(id@));
                }
            }
            proof {
                i = i + 1;
                assert(rest@ =~= s.skip(i));
            }
        }
        proof {
            assert(s.take(i) =~= s);
        }
        self.entries = out;
    }

    /// Records `st` for `id`, in place of what was recorded before.
    pub fn insert(&mut self, id: String, st: PageState)
        ensures
            final(self)@ == old(self)@.insert(id@, st),
    {
        self.remove(id.as_str());
        let ghost before = self.entries@;
        self.entries.push((id, st));
        proof {
            assert(self.entries@.drop_last() =~= before);
            assert(map_of(self.entries@) =~= old(self)@.insert(id@, st));
        }
    }
}

/// The titles of `pages` as the page list shows them, each behind the mark of
/// its save state.
pub fn map_saved_pages(pages: &Vec<Page>, states: &SaveStates) -> (r: Vec<String>)
    ensures
        r@.len() == pages@.len(),
        forall|i: int|
            0 <= i < pages@.len() ==> #[trigger] r@[i]@ == saved_mark(state_in(states@, pages@[i].id@))
                + pages@[i].title@,
{
    let mut r: Vec<String> = Vec::new();
    let mut i: usize = 0;
    while i < pages.len()
        invariant
            i <= pages@.len(),
            r@.len() == i,
            forall|j: int|
                0 <= j < i ==> #[trigger] r@[j]@ == saved_mark(state_in(states@, pages@[j].id@))
                    + pages@[j].title@,
        decreases pages@.len() - i,
    {
        let p = &pages[i];
        let mut line = match states.get(p.id.as_str()) {
            Some(PageState::Saved) => String::from_str("\u{2713} "),
            _ => String::from_str("  "),
        };
        line.append(p.title.as_str());
        r.push(line);
        i += 1;
    }
    r
}

} // verus!
