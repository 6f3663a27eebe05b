//! Rows of the document buffer.

use vstd::prelude::*;

verus! {

/// One line of the document: an ordered sequence of characters plus a
/// cached length. The invariant [`EditorRow::wf`] ties the two together.
pub struct EditorRow {
    pub chars: Vec<char>,
    pub len: usize,
}

impl View for EditorRow {
    type V = Seq<char>;

    open spec fn view(&self) -> Seq<char> {
        self.chars@
    }
}

impl EditorRow {
    /// The cached length always equals the number of characters.
    pub open spec fn wf(&self) -> bool {
        self.len == self.chars@.len()
    }

    /// Builds a row holding the characters of `s`.
    pub fn new(s: &str) -> (r: EditorRow)
        ensures
            r@ == s@,
            r.wf(),
    {
        let n = s.unicode_len();
        let mut chars: Vec<char> = Vec::new();
        let mut i: usize = 0;
        while i < n
            invariant
                i <= n,
                n == s@.len(),
                chars@ == s@.take(i as int),
            decreases n - i,
        {
            chars.push(s.get_char(i));
            i = i + 1;
            proof {
                assert(chars@ =~= s@.take(i as int));
            }
        }
        proof {
            assert(chars@ =~= s@);
        }
        let len = chars.len();
        EditorRow { chars, len }
    }

    /// Builds a row that takes ownership of an already-built character
    /// vector.
    pub fn from_chars(chars: Vec<char>) -> (r: EditorRow)
        ensures
            r@ == chars@,
            r.wf(),
    {
        let len = chars.len();
        EditorRow { chars, len }
    }

    /// Removes the character at `ix`; a silent no-op when `ix` is out of
    /// range.
    pub fn remove(&mut self, ix: usize)
        requires
            old(self).wf(),
        ensures
            final(self).wf(),
            ix < old(self)@.len() ==> final(self)@ == old(self)@.remove(ix as int),
            ix >= old(self)@.len() ==> final(self)@ == old(self)@,
    {
        if ix < self.len {
            self.chars.remove(ix);
            self.len = self.chars.len();
        }
    }

    /// Inserts `c` at `ix`, shifting the rest of the row right; inserting
    /// at the length appends; a silent no-op when `ix` is past the length.
    pub fn insert(&mut self, ix: usize, c: char)
        requires
            old(self).wf(),
        ensures
            final(self).wf(),
            ix <= old(self)@.len() ==> final(self)@ == old(self)@.insert(ix as int, c),
            ix > old(self)@.len() ==> final(self)@ == old(self)@,
    {
        if ix <= self.len {
            self.chars.insert(ix, c);
            self.len = self.chars.len();
        }
    }

    /// Drops the last character; a silent no-op on an empty row.
    pub fn pop(&mut self)
        requires
            old(self).wf(),
        ensures
            final(self).wf(),
            old(self)@.len() > 0 ==> final(self)@ == old(self)@.drop_last(),
            old(self)@.len() == 0 ==> final(self)@ == old(self)@,
    {
        if self.len > 0 {
            self.chars.pop();
            self.len = self.chars.len();
        }
    }

    /// Appends `c` to the end of the row.
    pub fn push(&mut self, c: char)
        requires
            old(self).wf(),
        ensures
            final(self).wf(),
            final(self)@ == old(self)@.push(c),
    {
        self.chars.push(c);
        self.len = self.chars.len();
    }
}

} // verus!
