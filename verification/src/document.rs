//! The text buffer: rows in file order, read by index.

use crate::row::Row;
use vstd::prelude::*;
use vstd::std_specs::iter::IteratorSpec;

verus! {

/// `String::push` appends one character to the end of the string.
pub assume_specification[ String::push ](s: &mut String, ch: char)
    ensures
        final(s)@ == old(s)@.push(ch),
;

/// The index of the first line feed in `text`, or the length of `text`
/// where it holds none.
pub open spec fn line_end(text: Seq<char>) -> int
    decreases text.len(),
{
    if text.len() == 0 || text[0] == '\n' {
        0
    } else {
        1 + line_end(text.drop_first())
    }
}

/// A line without the carriage return that may close it.
pub open spec fn without_cr(line: Seq<char>) -> Seq<char> {
    if line.len() > 0 && line.last() == '\r' {
        line.drop_last()
    } else {
        line
    }
}

/// The lines of a text. A line ends at a line feed or at a carriage return
/// followed by a line feed; neither belongs to the line. What follows the
/// last line feed is a line of its own unless it is empty, so a text reads
/// the same with and without a final line ending.
pub open spec fn lines(text: Seq<char>) -> Seq<Seq<char>>
    decreases text.len(),
{
    let end = line_end(text);
    if text.len() == 0 {
        Seq::empty()
    } else if 0 <= end < text.len() {
        seq![without_cr(text.take(end))] + lines(text.skip(end + 1))
    } else {
        seq![text]
    }
}

/// `line_end` is the one index that no line feed precedes and that either
/// holds a line feed or closes the text.
pub proof fn lemma_line_end(text: Seq<char>, at: int)
    requires
        0 <= at <= text.len(),
        forall|i: int| 0 <= i < at ==> text[i] != '\n',
        at < text.len() ==> text[at] == '\n',
    ensures
        line_end(text) == at,
    decreases text.len(),
{
    if text.len() == 0 || text[0] == '\n' {
    } else {
        let rest = text.drop_first();
        assert forall|i: int| 0 <= i < at - 1 implies rest[i] != '\n' by {
            assert(rest[i] == text[i + 1]);
        }
        lemma_line_end(rest, at - 1);
    }
}

/// No line feed stands before `line_end`, which lies within the text and
/// holds a line feed unless it closes the text.
pub proof fn lemma_line_end_bounds(text: Seq<char>)
    ensures
        0 <= line_end(text) <= text.len(),
        forall|i: int| 0 <= i < line_end(text) ==> text[i] != '\n',
        line_end(text) < text.len() ==> text[line_end(text)] == '\n',
    decreases text.len(),
{
    if text.len() == 0 || text[0] == '\n' {
    } else {
        let rest = text.drop_first();
        lemma_line_end_bounds(rest);
        assert forall|i: int| 0 <= i < line_end(text) implies text[i] != '\n' by {
            if i > 0 {
                assert(text[i] == rest[i - 1]);
            }
        }
        if line_end(rest) < rest.len() {
            assert(text[line_end(rest) + 1] == rest[line_end(rest)]);
        }
    }
}

/// Whether `line` can be a line of a text: it holds no line feed and does
/// not end in a carriage return.
pub open spec fn is_line(line: Seq<char>) -> bool {
    &&& forall|i: int| 0 <= i < line.len() ==> line[i] != '\n'
    &&& line.len() > 0 ==> line.last() != '\r'
}

/// The text that holds `rows` in order, each followed by `ending`.
pub open spec fn text_of(rows: Seq<Seq<char>>, ending: Seq<char>) -> Seq<char>
    decreases rows.len(),
{
    if rows.len() == 0 {
        Seq::empty()
    } else {
        rows[0] + ending + text_of(rows.drop_first(), ending)
    }
}

/// Reading back what was written: a text made of lines, each closed by a
/// line feed or by a carriage return and a line feed, has exactly those
/// lines, in order and unchanged.
pub proof fn lemma_lines_round_trip(rows: Seq<Seq<char>>, ending: Seq<char>)
    requires
        forall|i: int| 0 <= i < rows.len() ==> is_line(#[trigger] rows[i]),
        ending == seq!['\n'] || ending == seq!['\r', '\n'],
    ensures
        lines(text_of(rows, ending)) == rows,
    decreases rows.len(),
{
    if rows.len() > 0 {
        let first = rows[0];
        let rest = rows.drop_first();
        let text = text_of(rows, ending);
        let end = first.len() + ending.len() - 1;
        assert(is_line(first));
        assert forall|i: int| 0 <= i < rest.len() implies is_line(#[trigger] rest[i]) by {
            assert(rest[i] == rows[i + 1]);
        }
        lemma_lines_round_trip(rest, ending);
        assert(text[end] == '\n');
        assert forall|i: int| 0 <= i < end implies text[i] != '\n' by {
            if i < first.len() {
                assert(text[i] == first[i]);
            } else {
                assert(text[i] == '\r');
            }
        }
        lemma_line_end(text, end);
        assert(without_cr(text.take(end)) == first) by {
            if ending.len() == 1 {
                assert(text.take(end) == first);
            } else {
                assert(text.take(end) == first.push('\r'));
                assert(first.push('\r').drop_last() == first);
            }
        }
        assert(text.skip(end + 1) == text_of(rest, ending));
        assert(seq![first] + rest == rows);
    }
}

/// A final line needs no line ending: a text whose last line is not empty
/// reads the same without the line feed that closes it.
pub proof fn lemma_lines_final_ending(text: Seq<char>)
    requires
        text.len() > 0,
        text.last() != '\n',
        text.last() != '\r',
    ensures
        lines(text.push('\n')) == lines(text),
    decreases text.len(),
{
    let closed = text.push('\n');
    let end = line_end(text);
    lemma_line_end_bounds(text);
    assert forall|i: int| 0 <= i < end implies closed[i] != '\n' by {
        assert(closed[i] == text[i]);
    }
    if end < text.len() {
        assert(closed[end] == text[end]);
        lemma_line_end(closed, end);
        assert(closed.take(end) == text.take(end));
        let rest = text.skip(end + 1);
        assert(rest.len() > 0);
        assert(rest.last() == text.last());
        assert(closed.skip(end + 1) == rest.push('\n'));
        lemma_lines_final_ending(rest);
    } else {
        lemma_line_end(closed, end);
        assert(closed.take(end) == text);
        assert(closed.skip(end + 1) == Seq::<char>::empty());
        assert(lines(Seq::<char>::empty()) == Seq::<Seq<char>>::empty());
        assert(seq![text] + Seq::<Seq<char>>::empty() == seq![text]);
    }
}

/// The rows of a viewer, in the order of the lines they were read from.
pub struct Document {
    rows: Vec<Row>,
}

impl View for Document {
    type V = Seq<Seq<char>>;

    closed spec fn view(&self) -> Seq<Seq<char>> {
        Seq::new(self.rows@.len(), |i: int| self.rows@[i]@)
    }
}

/// The carriage return that reading holds back until it has seen whether
/// a line feed follows.
spec fn held(cr: bool) -> Seq<char> {
    if cr {
        seq!['\r']
    } else {
        Seq::empty()
    }
}

impl Document {
    /// The document without rows.
    pub fn empty() -> (doc: Document)
        ensures
            doc@ == Seq::<Seq<char>>::empty(),
    {
        Document { rows: Vec::new() }
    }

    /// The document read from `source`, which is what reading its text
    /// gave: the rows are the lines of the text, in order. A source that
    /// could not be read gives no document but the error of the read.
    pub fn open<E>(source: Result<String, E>) -> (outcome: Result<Document, E>)
        ensures
            (match source {
                Ok(text) => outcome matches Ok(doc) && doc@ == lines(text@),
                Err(error) => outcome matches Err(e) && e == error,
            }),
    {
        match source {
            Ok(text) => Ok(Document::from_text(text.as_str())),
            Err(error) => Err(error),
        }
    }

    /// The document whose rows are the lines of `text`, in order.
    pub fn from_text(text: &str) -> (doc: Document)
        ensures
            doc@ == lines(text@),
    {
        broadcast use vstd::string::group_string_axioms;

        let mut doc = Document { rows: Vec::new() };
        let mut line = String::new();
        let mut cr = false;
        let ghost mut start: int = 0;
        let ghost mut at: int = 0;
        let mut chars = text.chars();
        assert(text@.skip(0) == text@);
        assert(doc@ + lines(text@) == lines(text@));
        loop
            invariant_except_break
                chars.remaining() == text@.skip(at),
            invariant
                0 <= start <= at <= text@.len(),
                forall|i: int| start <= i < at ==> text@[i] != '\n',
                line@ + held(cr) == text@.subrange(start, at),
                !cr && line@.len() > 0 ==> line@.last() != '\r',
                lines(text@) == doc@ + lines(text@.skip(start)),
            ensures
                at == text@.len(),
            decreases text@.len() - at,
        {
            let ghost rest = text@.skip(start);
            match chars.next() {
                None => {
                    break ;
                },
                Some(c) => {
                    assert(c == text@[at]);
                    assert(text@.skip(at).drop_first() == text@.skip(at + 1));
                    if c == '\n' {
                        proof {
                            lemma_line_end(rest, at - start);
                            assert(rest.take(at - start) == text@.subrange(start, at));
                            assert(rest.skip(at - start + 1) == text@.skip(at + 1));
                            if cr {
                                assert((line@ + held(cr)).drop_last() == line@);
                            } else {
                                assert(line@ + held(cr) == line@);
                                assert(line@.len() > 0 ==> line@.last() != '\r');
                            }
                        }
                        let ghost before = doc@;
                        doc.rows.push(Row::new(line.as_str()));
                        assert(doc@ == before.push(line@));
                        line = String::new();
                        cr = false;
                        proof {
                            start = at + 1;
                        }
                    } else {
                        if cr {
                            line.push('\r');
                        }
                        if c == '\r' {
                            cr = true;
                        } else {
                            line.push(c);
                            cr = false;
                        }
                    }
                    proof {
                        at = at + 1;
                    }
                },
            }
        }
        if cr {
            line.push('\r');
        }
        assert(line@ == text@.skip(start));
        proof {
            lemma_line_end(text@.skip(start), text@.len() - start);
        }
        if !line.as_str().is_empty() {
            let ghost before = doc@;
            doc.rows.push(Row::new(line.as_str()));
            assert(doc@ == before.push(line@));
        }
        doc
    }

    /// The number of rows.
    pub fn len(&self) -> (n: usize)
        ensures
            n == self@.len(),
    {
        self.rows.len()
    }

    /// Whether the document has no row.
    pub fn is_empty(&self) -> (b: bool)
        ensures
            b == (self@.len() == 0),
    {
        self.rows.len() == 0
    }

    /// The row at `index`, and nothing at or past the end.
    pub fn row(&self, index: usize) -> (row: Option<&Row>)
        ensures
            index < self@.len() ==> (row matches Some(r) && r@ == self@[index as int]),
            index >= self@.len() ==> row is None,
    {
        if index < self.rows.len() {
            Some(&self.rows[index])
        } else {
            None
        }
    }
}

} // verus!
