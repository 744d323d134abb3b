//! The text that the editor shows, and how a text falls into lines.

use vstd::prelude::*;

verus! {

/// `String::push` of the standard library appends one character to the string and
/// leaves the characters before it as they were.
pub assume_specification[ String::push ](s: &mut String, ch: char)
    ensures
        final(s)@ == old(s)@.push(ch),
;

/// The number of characters of `text` before its first line feed; its length where it
/// holds none.
pub open spec fn line_len(text: Seq<char>) -> nat
    decreases text.len(),
{
    if text.len() == 0 || text[0] == '\n' {
        0
    } else {
        1 + line_len(text.drop_first())
    }
}

/// `line` without the carriage return that ends it, if one does.
pub open spec fn without_carriage_return(line: Seq<char>) -> Seq<char> {
    if line.len() > 0 && line.last() == '\r' {
        line.drop_last()
    } else {
        line
    }
}

/// The lines of `text`. A line ends with a line feed, or with a carriage return and a
/// line feed; neither belongs to the line. The last line may lack its terminator, and
/// nothing follows the last terminator: a text that ends with one has no empty line
/// after it, and the empty text has no lines.
pub open spec fn split_lines(text: Seq<char>) -> Seq<Seq<char>>
    decreases text.len(),
{
    let n = line_len(text) as int;
    if text.len() == 0 {
        Seq::empty()
    } else if n >= text.len() {
        seq![text]
    } else {
        seq![without_carriage_return(text.take(n))] + split_lines(text.skip(n + 1))
    }
}

/// A text whose first `n` characters hold no line feed, and which ends there or goes
/// on with a line feed, has a first line of `n` characters.
pub proof fn lemma_line_len_is(text: Seq<char>, n: int)
    requires
        0 <= n <= text.len(),
        forall|i: int| 0 <= i < n ==> text[i] != '\n',
        n < text.len() ==> text[n] == '\n',
    ensures
        line_len(text) == n,
    decreases n,
{
    if n > 0 {
        let rest = text.drop_first();
        assert forall|i: int| 0 <= i < n - 1 implies rest[i] != '\n' by {
            assert(rest[i] == text[i + 1]);
        }
        lemma_line_len_is(rest, n - 1);
    }
}

/// Whether `line` can stand for one line of a text as it is: it holds no line feed, and
/// no carriage return ends it.
pub open spec fn is_line(line: Seq<char>) -> bool {
    &&& forall|i: int| 0 <= i < line.len() ==> line[i] != '\n'
    &&& line.len() > 0 ==> line.last() != '\r'
}

/// Whether `terminator` ends a line: a line feed, alone or after a carriage return.
pub open spec fn is_terminator(terminator: Seq<char>) -> bool {
    terminator == seq!['\n'] || terminator == seq!['\r', '\n']
}

/// The text in which each of `lines` is followed by `terminator`.
pub open spec fn join_lines(lines: Seq<Seq<char>>, terminator: Seq<char>) -> Seq<char>
    decreases lines.len(),
{
    if lines.len() == 0 {
        Seq::empty()
    } else {
        lines.first() + terminator + join_lines(lines.drop_first(), terminator)
    }
}

/// Splitting undoes joining, whatever follows the joined lines: a text that begins with
/// terminated lines has those lines first, as they were, and then the lines of the rest.
pub proof fn lemma_split_after_joined_lines(
    lines: Seq<Seq<char>>,
    terminator: Seq<char>,
    rest: Seq<char>,
)
    requires
        forall|i: int| 0 <= i < lines.len() ==> is_line(#[trigger] lines[i]),
        is_terminator(terminator),
    ensures
        split_lines(join_lines(lines, terminator) + rest) == lines + split_lines(rest),
    decreases lines.len(),
{
    if lines.len() == 0 {
        assert(join_lines(lines, terminator) + rest == rest);
        assert(lines + split_lines(rest) == split_lines(rest));
    } else {
        let first = lines.first();
        let others = lines.drop_first();
        let tail = join_lines(others, terminator) + rest;
        let text = join_lines(lines, terminator) + rest;
        let n = first.len() + terminator.len() - 1;
        assert(is_line(first));
        assert(text == first + terminator + tail);
        lemma_line_len_is(text, n);
        assert(text.skip(n + 1) == tail);
        assert(without_carriage_return(text.take(n)) == first) by {
            if terminator.len() == 1 {
                assert(text.take(n) == first);
            } else {
                assert(text.take(n) == first.push('\r'));
                assert(first.push('\r').drop_last() == first);
            }
        }
        lemma_split_after_joined_lines(others, terminator, rest);
        assert(seq![first] + (others + split_lines(rest)) == lines + split_lines(rest));
    }
}

/// A text of terminated lines splits into exactly those lines.
pub proof fn lemma_split_joined_lines(lines: Seq<Seq<char>>, terminator: Seq<char>)
    requires
        forall|i: int| 0 <= i < lines.len() ==> is_line(#[trigger] lines[i]),
        is_terminator(terminator),
    ensures
        split_lines(join_lines(lines, terminator)) == lines,
{
    lemma_split_after_joined_lines(lines, terminator, Seq::empty());
    assert(join_lines(lines, terminator) + Seq::<char>::empty() == join_lines(lines, terminator));
    assert(lines + Seq::<Seq<char>>::empty() == lines);
}

/// The text of the editor: its lines, in the order they are shown.
pub struct Buffer {
    lines: Vec<String>,
}

impl View for Buffer {
    type V = Seq<Seq<char>>;

    closed spec fn view(&self) -> Seq<Seq<char>> {
        self.lines.deep_view()
    }
}

impl Default for Buffer {
    fn default() -> (buffer: Buffer)
        ensures
            buffer@ == Seq::<Seq<char>>::empty(),
    {
        Buffer { lines: Vec::new() }
    }
}

impl Buffer {
    /// The buffer that holds the lines of `text`.
    pub fn load(text: &str) -> (buffer: Buffer)
        ensures
            buffer@ == split_lines(text@),
    {
        let mut lines: Vec<String> = Vec::new();
        let mut current = String::new();
        // A carriage return has been read and is not yet part of `current`: it is
        // dropped if a line feed follows, and stored otherwise.
        let mut held: bool = false;
        let ghost mut raw: Seq<char> = Seq::empty();
        proof {
            assert(raw + text@.skip(0) == text@);
            assert(lines.deep_view() + split_lines(text@) == split_lines(text@));
        }
        for c in it: text.chars()
            invariant
                it.seq() == text@,
                raw == if held { current@.push('\r') } else { current@ },
                !held && current@.len() > 0 ==> current@.last() != '\r',
                forall|i: int| 0 <= i < raw.len() ==> raw[i] != '\n',
                split_lines(text@) == lines.deep_view() + split_lines(raw + text@.skip(it.index() as int)),
        {
            let ghost rest = text@.skip(it.index() as int);
            let ghost after = text@.skip(it.index() + 1);
            assert(rest == seq![c] + after);
            if c == '\n' {
                proof {
                    let whole = raw + rest;
                    lemma_line_len_is(whole, raw.len() as int);
                    assert(whole.take(raw.len() as int) == raw);
                    assert(whole.skip(raw.len() + 1int) == after);
                    assert(without_carriage_return(raw) == current@);
                    assert(Seq::<char>::empty() + after == after);
                }
                lines.push(current);
                current = String::new();
                held = false;
                proof {
                    raw = Seq::empty();
                }
            } else {
                if held {
                    current.push('\r');
                }
                if c == '\r' {
                    held = true;
                } else {
                    held = false;
                    current.push(c);
                }
                proof {
                    assert(raw.push(c) + after == raw + rest);
                    raw = raw.push(c);
                }
            }
        }
        proof {
            assert(text@.skip(text@.len() as int) == Seq::<char>::empty());
            assert(raw + Seq::<char>::empty() == raw);
            lemma_line_len_is(raw, raw.len() as int);
        }
        if held {
            current.push('\r');
        }
        if !current.as_str().is_empty() {
            lines.push(current);
        }
        Buffer { lines }
    }

    /// Whether the buffer holds no line.
    pub fn is_empty(&self) -> (empty: bool)
        ensures
            empty == (self@.len() == 0),
    {
        self.lines.is_empty()
    }

    /// The number of lines.
    pub fn line_count(&self) -> (count: usize)
        ensures
            count == self@.len(),
    {
        self.lines.len()
    }

    /// The line at `index`, counted from 0, where there is one.
    pub fn line_at(&self, index: usize) -> (line: Option<&str>)
        ensures
            index < self@.len() ==> line.is_some() && line.unwrap()@ == self@[index as int],
            index >= self@.len() ==> line.is_none(),
    {
        if index < self.lines.len() {
            Some(self.lines[index].as_str())
        } else {
            None
        }
    }
}

} // verus!
