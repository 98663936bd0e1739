use vstd::prelude::*;

verus! {

/// Wraparound single selection over a list, with the list's scroll offset.
///
/// The cursor does not own its list: each operation is told the list's length.
#[derive(Clone, Copy, Debug)]
pub struct ListCursor {
    /// Index of the selected row, if any.
    pub selected: Option<usize>,
    /// Index of the first row that is rendered (the list's scroll position).
    pub offset: usize,
}

/// The rendered bounding box of a list on screen.
#[derive(Clone, Copy, Debug)]
pub struct Bounds {
    pub left: u16,
    pub right: u16,
    pub top: u16,
}

/// Selection after moving one step forward in a list of `len` rows.
pub open spec fn next_selection(sel: Option<usize>, len: nat) -> Option<usize> {
    if len == 0 {
        sel
    } else {
        match sel {
            None => Some(0usize),
            Some(i) => if i + 1 >= len {
                Some(0usize)
            } else {
                Some((i + 1) as usize)
            },
        }
    }
}

/// Selection after moving one step back in a list of `len` rows.
pub open spec fn previous_selection(sel: Option<usize>, len: nat) -> Option<usize> {
    if len == 0 {
        sel
    } else {
        match sel {
            None => Some((len - 1) as usize),
            Some(i) => if i == 0 {
                Some((len - 1) as usize)
            } else {
                Some((i - 1) as usize)
            },
        }
    }
}

/// Selection after `k` forward steps.
pub open spec fn next_times(sel: Option<usize>, len: nat, k: nat) -> Option<usize>
    decreases k,
{
    if k == 0 {
        sel
    } else {
        next_selection(next_times(sel, len, (k - 1) as nat), len)
    }
}

/// The row under a click at column `x`, row `y`, in a list of `len` rows drawn
/// inside `b` and scrolled by `offset`; `None` when the click is outside the
/// box or below the last row.
pub open spec fn row_at(b: Bounds, offset: usize, len: nat, x: u16, y: u16) -> Option<usize> {
    if x <= b.left || x >= b.right || y <= b.top || (y - b.top - 1) + offset >= len {
        None
    } else {
        Some(((y - b.top - 1) + offset) as usize)
    }
}

impl Bounds {
    /// The bounds of an area at column `x`, row `y`, `width` columns wide. The
    /// right edge saturates at the last column a terminal can address.
    pub fn of_area(x: u16, y: u16, width: u16) -> (b: Bounds)
        ensures
            b.left == x,
            b.top == y,
            b.right == if x + width <= u16::MAX { (x + width) as u16 } else { u16::MAX },
    {
        let right = if width > u16::MAX - x {
            u16::MAX
        } else {
            x + width
        };
        Bounds { left: x, right, top: y }
    }
}

impl ListCursor {
    /// The selection, if any, is a row of a list of `len` rows.
    pub open spec fn valid_for(self, len: nat) -> bool {
        match self.selected {
            Some(i) => i < len,
            None => true,
        }
    }

    /// A cursor with nothing selected, scrolled to the top.
    pub fn new() -> (c: ListCursor)
        ensures
            c.selected is None,
            c.offset == 0,
    {
        ListCursor { selected: None, offset: 0 }
    }

    /// A cursor on the first row, scrolled to the top.
    pub fn first() -> (c: ListCursor)
        ensures
            c.selected == Some(0usize),
            c.offset == 0,
    {
        ListCursor { selected: Some(0), offset: 0 }
    }

    /// The selected row, if any.
    pub fn selected(&self) -> (r: Option<usize>)
        ensures
            r == self.selected,
    {
        self.selected
    }

    /// Selects `sel`, keeping the scroll offset.
    pub fn select(&mut self, sel: Option<usize>)
        ensures
            final(self).selected == sel,
            final(self).offset == old(self).offset,
    {
        self.selected = sel;
    }

    /// Records where the list was scrolled to when it was last drawn.
    pub fn set_offset(&mut self, offset: usize)
        ensures
            final(self).selected == old(self).selected,
            final(self).offset == offset,
    {
        self.offset = offset;
    }

    /// Moves one row down, from the last row to the first; with nothing
    /// selected, selects the first row. Does nothing on an empty list.
    pub fn next(&mut self, len: usize)
        ensures
            final(self).selected == next_selection(old(self).selected, len as nat),
            final(self).offset == old(self).offset,
            old(self).valid_for(len as nat) ==> final(self).valid_for(len as nat),
    {
        if len == 0 {
            return;
        }
        match self.selected {
            None => self.selected = Some(0),
            Some(i) => {
                if i >= len - 1 {
                    self.selected = Some(0);
                } else {
                    self.selected = Some(i + 1);
                }
            },
        }
    }

    /// Moves one row up, from the first row to the last; with nothing
    /// selected, selects the last row. Does nothing on an empty list.
    pub fn previous(&mut self, len: usize)
        ensures
            final(self).selected == previous_selection(old(self).selected, len as nat),
            final(self).offset == old(self).offset,
            old(self).valid_for(len as nat) ==> final(self).valid_for(len as nat),
    {
        if len == 0 {
            return;
        }
        match self.selected {
            None => self.selected = Some(len - 1),
            Some(i) => {
                if i == 0 {
                    self.selected = Some(len - 1);
                } else {
                    self.selected = Some(i - 1);
                }
            },
        }
    }

    /// Selects the row under a click, or nothing when the click misses the
    /// list's rows.
    pub fn mouse_select(&mut self, b: &Bounds, len: usize, x: u16, y: u16)
        ensures
            final(self).selected == row_at(*b, old(self).offset, len as nat, x, y),
            final(self).offset == old(self).offset,
            final(self).valid_for(len as nat),
    {
        if x <= b.left || x >= b.right || y <= b.top {
            self.selected = None;
            return;
        }
        let row = (y - b.top - 1) as usize;
        if row >= len || self.offset >= len - row {
            self.selected = None;
        } else {
            self.selected = Some(row + self.offset);
        }
    }
}

/// Moving forward as many times as the list has rows comes back to the row
/// where it started.
pub proof fn lemma_next_wraps_around(len: usize, i: usize)
    requires
        i < len,
    ensures
        next_times(Some(i), len as nat, len as nat) == Some(i),
{
    let n = len as nat;
    lemma_next_times_climbs(n, i, (len - 1 - i) as nat);
    assert(next_times(Some(i), n, (len - i) as nat) == Some(0usize));
    lemma_next_times_split(Some(i), n, (len - i) as nat, i as nat);
    lemma_next_times_climbs(n, 0usize, i as nat);
}

/// Below the last row, each step forward adds one to the index.
proof fn lemma_next_times_climbs(len: nat, i: usize, k: nat)
    requires
        i + k < len,
        len <= usize::MAX,
    ensures
        next_times(Some(i), len, k) == Some((i + k) as usize),
    decreases k,
{
    if k > 0 {
        lemma_next_times_climbs(len, i, (k - 1) as nat);
    }
}

/// `a + b` steps are `a` steps followed by `b` steps.
proof fn lemma_next_times_split(sel: Option<usize>, len: nat, a: nat, b: nat)
    ensures
        next_times(sel, len, a + b) == next_times(next_times(sel, len, a), len, b),
    decreases b,
{
    if b > 0 {
        lemma_next_times_split(sel, len, a, (b - 1) as nat);
        assert((a + b - 1) as nat == a + (b - 1) as nat);
    }
}

/// A step back undoes a step forward and the other way round; at the ends the
/// two steps wrap: back from the first row is the last row, forward from the
/// last row is the first.
pub proof fn lemma_previous_next_inverse(len: usize, i: usize)
    requires
        i < len,
    ensures
        next_selection(previous_selection(Some(i), len as nat), len as nat) == Some(i),
        previous_selection(next_selection(Some(i), len as nat), len as nat) == Some(i),
        previous_selection(Some(0usize), len as nat) == Some((len - 1) as usize),
        next_selection(Some((len - 1) as usize), len as nat) == Some(0usize),
{
}

} // verus!
