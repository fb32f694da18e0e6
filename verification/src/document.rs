use vstd::prelude::*;
use crate::row::Row;

verus! {

/// Index of the first line feed in `s`, or `s.len()` when there is none.
pub open spec fn first_line_feed(s: Seq<char>) -> int
    decreases s.len(),
{
    if s.len() == 0 {
        0
    } else if s[0] == '\n' {
        0
    } else {
        1 + first_line_feed(s.subrange(1, s.len() as int))
    }
}

/// A terminated line as it is stored: when the line feed followed a
/// carriage return, that carriage return belongs to the terminator and
/// is stripped.
pub open spec fn strip_carriage_return(l: Seq<char>) -> Seq<char> {
    if l.len() > 0 && l[l.len() - 1] == '\r' {
        l.subrange(0, l.len() - 1)
    } else {
        l
    }
}

/// The line-splitting rule: a line ends at each line feed (a carriage
/// return directly before the feed is part of the terminator); the text
/// after the last feed forms a final line only when it is non-empty, so
/// a trailing terminator adds no empty line.
pub open spec fn split_lines(s: Seq<char>) -> Seq<Seq<char>>
    decreases s.len(),
{
    if s.len() == 0 {
        Seq::empty()
    } else {
        let i = first_line_feed(s);
        if 0 <= i && i < s.len() {
            seq![strip_carriage_return(s.subrange(0, i))] + split_lines(
                s.subrange(i + 1, s.len() as int),
            )
        } else {
            seq![s]
        }
    }
}

proof fn lemma_first_line_feed_at(s: Seq<char>, k: int)
    requires
        0 <= k <= s.len(),
        forall|j: int| 0 <= j < k ==> s[j] != '\n',
        k < s.len() ==> s[k] == '\n',
    ensures
        first_line_feed(s) == k,
    decreases s.len(),
{
    if k == 0 {
    } else {
        let tail = s.subrange(1, s.len() as int);
        assert(forall|j: int| 0 <= j < k - 1 ==> tail[j] != '\n');
        lemma_first_line_feed_at(tail, k - 1);
    }
}

/// An ordered sequence of rows: index `i` holds the `(i+1)`-th line of
/// the loaded source. Read-only after construction.
pub struct Document {
    rows: Vec<Row>,
}

impl Document {
    /// The document's content: one character sequence per line, in load
    /// order.
    pub closed spec fn view(&self) -> Seq<Seq<char>> {
        self.rows@.map_values(|r: Row| r@)
    }

    /// Builds the document from the full source text: one row per line,
    /// in source order, per the line-splitting rule.
    pub fn from_text(text: &str) -> (d: Document)
        ensures
            d@ == split_lines(text@),
    {
        let n: usize = text.unicode_len();
        let mut rows: Vec<Row> = Vec::new();
        let mut start: usize = 0;
        let mut i: usize = 0;
        proof {
            assert(text@.subrange(0, n as int) =~= text@);
            assert(rows@.map_values(|r: Row| r@) + split_lines(text@) =~= split_lines(text@));
        }
        while i < n
            invariant
                n == text@.len(),
                start <= i <= n,
                forall|j: int| start <= j < i ==> text@[j] != '\n',
                split_lines(text@) == rows@.map_values(|r: Row| r@) + split_lines(
                    text@.subrange(start as int, n as int),
                ),
            decreases n - i,
        {
            let c = text.get_char(i);
            if c == '\n' {
                let mut e: usize = i;
                if e > start && text.get_char(e - 1) == '\r' {
                    e = e - 1;
                }
                let line = text.substring_char(start, e);
                let ghost old_rows = rows@;
                rows.push(Row::from_text(line));
                proof {
                    let rest = text@.subrange(start as int, n as int);
                    lemma_first_line_feed_at(rest, i - start);
                    assert(rest.subrange(0, i - start) =~= text@.subrange(
                        start as int,
                        i as int,
                    ));
                    assert(strip_carriage_return(text@.subrange(start as int, i as int))
                        =~= text@.subrange(start as int, e as int));
                    assert(rest.subrange(i - start + 1, rest.len() as int) =~= text@.subrange(
                        i + 1,
                        n as int,
                    ));
                    assert(rows@.map_values(|r: Row| r@) =~= old_rows.map_values(|r: Row| r@)
                        + seq![text@.subrange(start as int, e as int)]);
                    assert(rows@.map_values(|r: Row| r@) + split_lines(
                        text@.subrange(i + 1, n as int),
                    ) =~= old_rows.map_values(|r: Row| r@) + split_lines(rest));
                }
                start = i + 1;
            }
            i = i + 1;
        }
        if start < n {
            let line = text.substring_char(start, n);
            let ghost old_rows = rows@;
            rows.push(Row::from_text(line));
            proof {
                let rest = text@.subrange(start as int, n as int);
                lemma_first_line_feed_at(rest, rest.len() as int);
                assert(rows@.map_values(|r: Row| r@) =~= old_rows.map_values(|r: Row| r@)
                    + seq![rest]);
                assert(rows@.map_values(|r: Row| r@) =~= old_rows.map_values(|r: Row| r@)
                    + split_lines(rest));
            }
        } else {
            proof {
                assert(text@.subrange(start as int, n as int) =~= Seq::<char>::empty());
                assert(rows@.map_values(|r: Row| r@) + split_lines(Seq::<char>::empty())
                    =~= rows@.map_values(|r: Row| r@));
            }
        }
        Document { rows }
    }

    /// The row at `index`, or nothing when `index` is out of range;
    /// never an error.
    pub fn row(&self, index: usize) -> (r: Option<&Row>)
        ensures
            match r {
                Some(row) => index < self@.len() && row@ == self@[index as int],
                None => index >= self@.len(),
            },
    {
        if index < self.rows.len() {
            Some(&self.rows[index])
        } else {
            None
        }
    }

    /// Whether the document holds zero rows.
    pub fn is_empty(&self) -> (b: bool)
        ensures
            b == (self@.len() == 0),
    {
        self.rows.len() == 0
    }

    /// The number of rows.
    pub fn len(&self) -> (n: usize)
        ensures
            n == self@.len(),
    {
        self.rows.len()
    }
}

impl Default for Document {
    /// An empty document: zero rows.
    fn default() -> (d: Document)
        ensures
            d@ == Seq::<Seq<char>>::empty(),
    {
        let rows: Vec<Row> = Vec::new();
        proof {
            assert(rows@.map_values(|r: Row| r@) =~= Seq::<Seq<char>>::empty());
        }
        Document { rows }
    }
}

/// An empty source yields a document with no lines at all, and a source
/// that is nothing but one terminator yields exactly one empty line.
pub proof fn lemma_split_lines_empty()
    ensures
        split_lines(Seq::<char>::empty()).len() == 0,
        split_lines(seq!['\n']) =~= seq![Seq::<char>::empty()],
{
    let s = seq!['\n'];
    assert(first_line_feed(s) == 0);
    assert(s.subrange(1, 1) =~= Seq::<char>::empty());
    assert(split_lines(s.subrange(1, 1)).len() == 0);
    assert(s.subrange(0, 0) =~= Seq::<char>::empty());
    assert(split_lines(s) =~= seq![strip_carriage_return(s.subrange(0, 0))] + split_lines(
        s.subrange(1, 1),
    ));
}

} // verus!
