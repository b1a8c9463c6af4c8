//! Text cut into lines, as a map's layout is written: one line for each
//! row of the map.

use vstd::prelude::*;
use vstd::utf8::{char_is_scalar, encode_scalar, encode_utf8};

verus! {

/// The number of bytes that `chars` take in UTF-8.
pub open spec fn byte_len(chars: Seq<char>) -> nat {
    encode_utf8(chars).len()
}

/// The number of characters before the first line feed of `text`, or
/// the length of `text` where it has none.
pub open spec fn first_line_len(text: Seq<char>) -> nat
    decreases text.len(),
{
    if text.len() == 0 || text[0] == '\n' {
        0
    } else {
        1 + first_line_len(text.drop_first())
    }
}

/// `line` without the carriage return that it ends in, if it ends in one.
pub open spec fn without_carriage_return(line: Seq<char>) -> Seq<char> {
    if line.len() > 0 && line.last() == '\r' {
        line.drop_last()
    } else {
        line
    }
}

/// The lines of `text`. A line ends at a line feed, or at a carriage
/// return followed by one; neither belongs to the line. The last line
/// need not end in a line feed, and an empty text has no line.
pub open spec fn lines(text: Seq<char>) -> Seq<Seq<char>>
    decreases text.len(),
{
    let n = first_line_len(text) as int;
    if text.len() == 0 {
        Seq::empty()
    } else if n >= text.len() {
        seq![text]
    } else {
        seq![without_carriage_return(text.take(n))] + lines(text.skip(n + 1))
    }
}

/// One line of a text, with the number of bytes that it takes in UTF-8.
pub struct Line {
    pub chars: Vec<char>,
    pub bytes: usize,
}

impl Line {
    /// Whether the line has the number of bytes that it says.
    pub open spec fn wf(&self) -> bool {
        self.bytes == byte_len(self.chars@)
    }
}

/// The characters of each line of `rows`.
pub open spec fn line_views(rows: Seq<Line>) -> Seq<Seq<char>> {
    Seq::new(rows.len(), |j: int| rows[j].chars@)
}

/// The bytes of two texts, one after the other, are as many as those of
/// the first and those of the second.
pub proof fn lemma_byte_len_concat(a: Seq<char>, b: Seq<char>)
    ensures
        byte_len(a + b) == byte_len(a) + byte_len(b),
    decreases a.len(),
{
    if a.len() > 0 {
        assert((a + b).drop_first() =~= a.drop_first() + b);
        lemma_byte_len_concat(a.drop_first(), b);
    }
}

/// A character adds between one and four bytes to a text.
pub proof fn lemma_byte_len_push(s: Seq<char>, c: char)
    ensures
        byte_len(s.push(c)) == byte_len(s) + encode_scalar(c as u32).len(),
        1 <= encode_scalar(c as u32).len() <= 4,
{
    let one = seq![c];
    assert(encode_utf8(one.drop_first()) =~= Seq::<u8>::empty());
    assert(s.push(c) =~= s + one);
    lemma_byte_len_concat(s, one);
}

/// A text without line feeds, followed by another, has its first line
/// end where that of the other does.
pub proof fn lemma_first_line_len_concat(a: Seq<char>, rest: Seq<char>)
    requires
        forall|k: int| 0 <= k < a.len() ==> a[k] != '\n',
    ensures
        first_line_len(a + rest) == a.len() + first_line_len(rest),
    decreases a.len(),
{
    if a.len() > 0 {
        assert((a + rest).drop_first() =~= a.drop_first() + rest);
        lemma_first_line_len_concat(a.drop_first(), rest);
    }
}

/// The number of bytes that `c` takes in UTF-8.
pub fn char_width(c: char) -> (w: usize)
    ensures
        w == encode_scalar(c as u32).len(),
        1 <= w <= 4,
{
    proof {
        char_is_scalar(c);
    }
    let v: u32 = c as u32;
    if v < 0x80 {
        1
    } else if v < 0x800 {
        2
    } else if v < 0x10000 {
        3
    } else {
        4
    }
}

/// Cuts `text` into its lines.
pub fn split_lines(text: &str) -> (rows: Vec<Line>)
    ensures
        line_views(rows@) == lines(text@),
        forall|j: int| 0 <= j < rows@.len() ==> (#[trigger] rows@[j]).wf(),
{
    let total: usize = text.as_bytes().len();
    let mut rows: Vec<Line> = Vec::new();
    let mut current: Vec<char> = Vec::new();
    let mut width: usize = 0;
    assert(current@ + text@.skip(0) =~= text@);
    for c in it: text.chars()
        invariant
            it.seq() == text@,
            total == byte_len(text@),
            width == byte_len(current@),
            byte_len(current@) <= byte_len(text@.take(it.index() as int)),
            forall|k: int| 0 <= k < current@.len() ==> current@[k] != '\n',
            forall|j: int| 0 <= j < rows@.len() ==> (#[trigger] rows@[j]).wf(),
            lines(text@) == line_views(rows@) + lines(current@ + text@.skip(it.index() as int)),
    {
        let ghost i = it.index() as int;
        let ghost before = current@ + text@.skip(i);
        proof {
            assert(text@.take(i + 1) =~= text@.take(i).push(c));
            lemma_byte_len_push(text@.take(i), c);
            lemma_byte_len_push(current@, c);
            assert(text@ =~= text@.take(i + 1) + text@.skip(i + 1));
            lemma_byte_len_concat(text@.take(i + 1), text@.skip(i + 1));
        }
        if c == '\n' {
            proof {
                lemma_first_line_len_concat(current@, text@.skip(i));
                assert(before.take(current@.len() as int) =~= current@);
                assert(before.skip(current@.len() as int + 1) =~= text@.skip(i + 1));
            }
            let ghost whole = current@;
            if current.len() > 0 && current[current.len() - 1] == '\r' {
                current.pop();
                proof {
                    assert(whole =~= current@.push('\r'));
                    lemma_byte_len_push(current@, '\r');
                }
                width = width - 1;
            }
            rows.push(Line { chars: current, bytes: width });
            current = Vec::new();
            width = 0;
        } else {
            current.push(c);
            width = width + char_width(c);
            proof {
                assert(current@ + text@.skip(i + 1) =~= before);
            }
        }
    }
    proof {
        lemma_first_line_len_concat(current@, Seq::<char>::empty());
    }
    if current.len() > 0 {
        rows.push(Line { chars: current, bytes: width });
    }
    rows
}

} // verus!
