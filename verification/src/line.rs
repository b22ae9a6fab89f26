//! A plain-text target type: a line of text built as a list of
//! characters. A datatype is used rather than `String` so that its
//! values can be written down in specifications; parsing such a value
//! never fails — it yields the trimmed line, which may be empty.

use vstd::prelude::*;

use crate::engine::{run_model, SessionModel};
use crate::stream::ReadError;
use crate::target::{InputTarget, ParseError};
use crate::text::{chars_of, string_from_chars, trim_spec};

verus! {

/// A line of text as a target type of its own: the empty line, or one
/// character followed by the rest of the line.
pub enum Line {
    /// The end of the line.
    End,
    /// One character followed by the rest of the line.
    Chr(char, Box<Line>),
}

/// The line holding exactly the given characters.
pub open spec fn line_of(s: Seq<char>) -> Line
    decreases s.len(),
{
    if s.len() == 0 {
        Line::End
    } else {
        Line::Chr(s[0], Box::new(line_of(s.drop_first())))
    }
}

impl Line {
    /// The characters this line holds, in order.
    pub open spec fn chars_spec(self) -> Seq<char>
        decreases self,
    {
        match self {
            Line::End => Seq::empty(),
            Line::Chr(c, rest) => seq![c] + rest.chars_spec(),
        }
    }

    /// The line holding the characters of the given string.
    pub fn from_str(s: &str) -> (r: Line)
        ensures
            r == line_of(s@),
    {
        let cs = chars_of(s);
        proof {
            assert(cs@.skip(0) =~= s@);
        }
        build_line(&cs, 0)
    }

    /// The characters of this line, in order.
    pub fn chars(&self) -> (r: Vec<char>)
        ensures
            r@ == self.chars_spec(),
        decreases *self,
    {
        match self {
            Line::End => Vec::new(),
            Line::Chr(c, rest) => {
                let mut v: Vec<char> = Vec::new();
                v.push(*c);
                let mut tail = rest.chars();
                v.append(&mut tail);
                proof {
                    assert(v@ =~= seq![*c] + rest.chars_spec());
                }
                v
            },
        }
    }

    /// This line's text as a string.
    pub fn text(&self) -> (r: String)
        ensures
            r@ == self.chars_spec(),
    {
        let cs = self.chars();
        string_from_chars(&cs)
    }
}

/// The line holding the characters of `s` from position `from` on.
fn build_line(s: &Vec<char>, from: usize) -> (r: Line)
    requires
        from <= s@.len(),
    ensures
        r == line_of(s@.skip(from as int)),
    decreases s@.len() - from,
{
    if from >= s.len() {
        proof {
            assert(s@.skip(from as int) =~= Seq::<char>::empty());
        }
        Line::End
    } else {
        let rest = build_line(s, from + 1);
        proof {
            assert(s@.skip(from as int).drop_first() =~= s@.skip(from + 1 as int));
            assert(s@.skip(from as int)[0] == s@[from as int]);
        }
        Line::Chr(s[from], Box::new(rest))
    }
}

/// Whether two lines hold the same characters.
fn line_eq(a: &Line, b: &Line) -> (r: bool)
    ensures
        r == (*a == *b),
    decreases *a,
{
    match (a, b) {
        (Line::End, Line::End) => true,
        (Line::Chr(c1, r1), Line::Chr(c2, r2)) => *c1 == *c2 && line_eq(r1, r2),
        _ => false,
    }
}

/// The lexicographic order on lines, by code point, with a prefix
/// before every extension of it.
pub open spec fn line_le(a: Line, b: Line) -> bool
    decreases a,
{
    match (a, b) {
        (Line::End, _) => true,
        (Line::Chr(_, _), Line::End) => false,
        (Line::Chr(c1, r1), Line::Chr(c2, r2)) => (c1 as u32) < (c2 as u32) || (c1 == c2
            && line_le(*r1, *r2)),
    }
}

/// Whether `a` is at most `b` in the lexicographic order.
fn line_le_exec(a: &Line, b: &Line) -> (r: bool)
    ensures
        r == line_le(*a, *b),
    decreases *a,
{
    match (a, b) {
        (Line::End, _) => true,
        (Line::Chr(_, _), Line::End) => false,
        (Line::Chr(c1, r1), Line::Chr(c2, r2)) => (*c1 as u32) < (*c2 as u32) || (*c1 == *c2
            && line_le_exec(r1, r2)),
    }
}

impl InputTarget for Line {
    open spec fn parse_spec(s: Seq<char>) -> Result<Line, ParseError> {
        Ok(line_of(s))
    }

    open spec fn le_spec(self, other: Line) -> bool {
        line_le(self, other)
    }

    open spec fn lt_spec(self, other: Line) -> bool {
        line_le(self, other) && self != other
    }

    open spec fn eq_spec(self, other: Line) -> bool {
        self == other
    }

    fn parse_from(s: &Vec<char>) -> (r: Result<Line, ParseError>) {
        proof {
            assert(s@.skip(0) =~= s@);
        }
        Ok(build_line(s, 0))
    }

    fn le(&self, other: &Self) -> (r: bool) {
        line_le_exec(self, other)
    }

    fn lt(&self, other: &Self) -> (r: bool) {
        line_le_exec(self, other) && !line_eq(self, other)
    }

    fn eq_val(&self, other: &Self) -> (r: bool) {
        line_eq(self, other)
    }
}

/// With no default value configured an empty submitted line is still
/// parsed, and for the text target the parse succeeds: a session
/// without tests returns the empty line.
pub proof fn lemma_empty_line_text_target(cfg: SessionModel<Line>, lines: Seq<Seq<char>>)
    requires
        lines.len() > 0,
        trim_spec(lines[0]).len() == 0,
        cfg.default is None,
        cfg.tests.len() == 0,
    ensures
        run_model(cfg, lines).outcome == Ok::<Line, ReadError>(Line::End),
{
    assert(trim_spec(lines[0]) =~= Seq::<char>::empty());
    assert(line_of(trim_spec(lines[0])) == Line::End);
}

} // verus!
