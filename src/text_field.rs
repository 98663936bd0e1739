use vstd::prelude::*;

use crate::text::{chars_of, string_of};

verus! {

/// A single-line text entry: the characters typed so far and a cursor kept as
/// its distance from the end of the text.
#[derive(Debug)]
pub struct TextField {
    pub text: Vec<char>,
    /// How many characters stand after the cursor.
    pub offset: usize,
}

/// What a text field holds, as mathematical values.
#[verifier::ext_equal]
pub struct TextView {
    pub text: Seq<char>,
    pub offset: nat,
}

impl View for TextField {
    type V = TextView;

    open spec fn view(&self) -> TextView {
        TextView { text: self.text@, offset: self.offset as nat }
    }
}

impl TextView {
    /// The cursor stands inside the text.
    pub open spec fn wf(self) -> bool {
        self.offset <= self.text.len()
    }

    /// Where the cursor stands, counted from the start.
    pub open spec fn position(self) -> int {
        self.text.len() - self.offset
    }

    /// Inserts `c` at the cursor; the cursor stays after it.
    pub open spec fn type_char(self, c: char) -> TextView {
        TextView { text: self.text.insert(self.position(), c), offset: self.offset }
    }

    /// Removes the character before the cursor, if there is one.
    pub open spec fn backspace(self) -> TextView {
        if self.text.len() != 0 && self.text.len() != self.offset {
            TextView { text: self.text.remove(self.position() - 1), offset: self.offset }
        } else {
            self
        }
    }

    /// Moves the cursor one character to the left, stopping at the start.
    pub open spec fn cursor_left(self) -> TextView {
        if self.offset < self.text.len() {
            TextView { text: self.text, offset: self.offset + 1 }
        } else {
            self
        }
    }

    /// Moves the cursor one character to the right, stopping at the end.
    pub open spec fn cursor_right(self) -> TextView {
        if self.offset > 0 {
            TextView { text: self.text, offset: (self.offset - 1) as nat }
        } else {
            self
        }
    }

    /// Puts the cursor back at the end of the text.
    pub open spec fn reset(self) -> TextView {
        TextView { text: self.text, offset: 0 }
    }
}

impl TextField {
    pub open spec fn wf(&self) -> bool {
        self@.wf()
    }

    /// An empty field.
    pub fn new() -> (f: TextField)
        ensures
            f@ == (TextView { text: Seq::empty(), offset: 0 }),
    {
        let f = TextField { text: Vec::new(), offset: 0 };
        assert(f@.text =~= Seq::<char>::empty());
        f
    }

    /// A field holding `s`, with the cursor at its end.
    pub fn with_text(s: &str) -> (f: TextField)
        ensures
            f@.text == s@,
            f@.offset == 0,
    {
        TextField { text: chars_of(s), offset: 0 }
    }

    /// The text, as a string.
    pub fn text(&self) -> (s: String)
        ensures
            s@ == self@.text,
    {
        string_of(&self.text)
    }

    /// The cursor's distance from the end of the text.
    pub fn offset(&self) -> (r: usize)
        ensures
            r == self.offset,
    {
        self.offset
    }

    /// Inserts `c` at the cursor.
    pub fn type_char(&mut self, c: char)
        requires
            old(self).wf(),
        ensures
            final(self)@ == old(self)@.type_char(c),
            final(self).wf(),
    {
        let pos = self.text.len() - self.offset;
        self.text.insert(pos, c);
    }

    /// Removes the character before the cursor; nothing happens when the text
    /// is empty or the cursor stands at its start.
    pub fn backspace(&mut self)
        requires
            old(self).wf(),
        ensures
            final(self)@ == old(self)@.backspace(),
            final(self).wf(),
    {
        let len = self.text.len();
        if len != 0 && len != self.offset {
            let pos = len - self.offset - 1;
            self.text.remove(pos);
        }
    }

    /// Moves the cursor one character to the left, not past the start.
    pub fn cursor_left(&mut self)
        requires
            old(self).wf(),
        ensures
            final(self)@ == old(self)@.cursor_left(),
            final(self).wf(),
    {
        if self.offset < self.text.len() {
            self.offset += 1;
        }
    }

    /// Moves the cursor one character to the right, not past the end.
    pub fn cursor_right(&mut self)
        requires
            old(self).wf(),
        ensures
            final(self)@ == old(self)@.cursor_right(),
            final(self).wf(),
    {
        if self.offset > 0 {
            self.offset -= 1;
        }
    }

    /// Puts the cursor back at the end of the text.
    pub fn reset(&mut self)
        requires
            old(self).wf(),
        ensures
            final(self)@ == old(self)@.reset(),
            final(self).wf(),
    {
        self.offset = 0;
    }

    /// Empties the field.
    pub fn clear(&mut self)
        ensures
            final(self)@ == (TextView { text: Seq::empty(), offset: 0 }),
    {
        self.text = Vec::new();
        self.offset = 0;
        assert(self@.text =~= Seq::<char>::empty());
    }
}

/// Typing a character and erasing it again gives back the text and the cursor
/// that were there before, wherever the cursor stood.
pub proof fn lemma_type_then_backspace(f: TextView, c: char)
    requires
        f.wf(),
    ensures
        f.type_char(c).backspace() == f,
{
    let t = f.type_char(c);
    assert(t.text.len() == f.text.len() + 1);
    assert(t.backspace().text =~= f.text);
}

/// Moving the cursor keeps it inside the text: left never goes past the start,
/// right never past the end, whatever moves came before.
pub proof fn lemma_cursor_moves_stay_inside(f: TextView)
    requires
        f.wf(),
    ensures
        f.cursor_left().wf(),
        f.cursor_left().offset <= f.text.len(),
        f.cursor_right().wf(),
        f.cursor_right().offset >= 0,
        f.cursor_left().text == f.text,
        f.cursor_right().text == f.text,
{
}

/// The field after a run of cursor moves, `true` for a move to the left and
/// `false` for a move to the right.
pub open spec fn after_moves(f: TextView, moves: Seq<bool>) -> TextView
    decreases moves.len(),
{
    if moves.len() == 0 {
        f
    } else {
        let g = after_moves(f, moves.drop_last());
        if moves.last() {
            g.cursor_left()
        } else {
            g.cursor_right()
        }
    }
}

/// After any run of cursor moves the cursor still stands inside the text, and
/// the text is unchanged.
pub proof fn lemma_any_moves_stay_inside(f: TextView, moves: Seq<bool>)
    requires
        f.wf(),
    ensures
        after_moves(f, moves).wf(),
        after_moves(f, moves).text == f.text,
    decreases moves.len(),
{
    if moves.len() > 0 {
        lemma_any_moves_stay_inside(f, moves.drop_last());
    }
}

} // verus!
