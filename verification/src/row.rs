use vstd::prelude::*;

verus! {

/// The window of `s` between character positions `start` and `end`,
/// clamped to the text: an `end` past the text is cut back to the text's
/// length, and a `start` past the (clamped) end yields the empty sequence.
pub open spec fn window(s: Seq<char>, start: int, end: int) -> Seq<char> {
    let e = if end > s.len() { s.len() as int } else { end };
    let st = if start > e { e } else { start };
    s.subrange(st, e)
}

/// One logical line of document text: arbitrary characters, possibly
/// empty, never holding a line terminator of its own.
pub struct Row {
    text: String,
}

impl Row {
    /// The row's content as a sequence of characters.
    pub closed spec fn view(&self) -> Seq<char> {
        self.text@
    }

    /// Wraps one line of raw text; accepts any characters.
    pub fn from_text(line: &str) -> (r: Row)
        ensures
            r@ == line@,
    {
        Row { text: line.to_owned() }
    }

    /// Number of characters in the row (not bytes).
    pub fn len(&self) -> (n: usize)
        ensures
            n == self@.len(),
    {
        self.text.as_str().unicode_len()
    }

    /// Whether the row holds no characters.
    pub fn is_empty(&self) -> (b: bool)
        ensures
            b == (self@.len() == 0),
    {
        self.len() == 0
    }

    /// The substring visible in the horizontal window `[start, end)`,
    /// clamped to the row's actual length; out-of-range bounds are
    /// clamped, never an error.
    pub fn render(&self, start: usize, end: usize) -> (r: String)
        ensures
            r@ == window(self@, start as int, end as int),
    {
        let n: usize = self.text.as_str().unicode_len();
        let e: usize = if end > n { n } else { end };
        let st: usize = if start > e { e } else { start };
        self.text.as_str().substring_char(st, e).to_owned()
    }
}

/// Rendering from the left edge returns exactly the first `w` characters,
/// or the whole row when it is shorter: the result's length is the
/// smaller of the row's length and `w`, and `w == 0` yields the empty
/// string.
pub proof fn lemma_render_prefix_len(s: Seq<char>, w: int)
    requires
        w >= 0,
    ensures
        window(s, 0, w).len() == if w <= s.len() { w } else { s.len() as int },
        w == 0 ==> window(s, 0, w) =~= Seq::<char>::empty(),
{
}

} // verus!
