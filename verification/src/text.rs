//! Character-level text helpers: extracting the characters of a string,
//! trimming surrounding whitespace, and splitting a block of text into
//! newline-delimited lines.

use vstd::prelude::*;
use vstd::string::StrSliceExecFns;

verus! {

/// The whitespace characters removed by [`trim`]: the Unicode
/// white-space characters — the ASCII blanks, next line, no-break
/// space, the Ogham space mark, the typographic spaces, the line and
/// paragraph separators, and the ideographic space.
pub open spec fn is_ws(c: char) -> bool {
    c == ' ' || c == '\t' || c == '\n' || c == '\r' || c == '\u{000B}' || c == '\u{000C}' || c
        == '\u{0085}' || c == '\u{00A0}' || c == '\u{1680}' || (0x2000 <= (c as u32) && (c as u32)
        <= 0x200A) || c == '\u{2028}' || c == '\u{2029}' || c == '\u{202F}' || c == '\u{205F}' || c
        == '\u{3000}'
}

/// The sequence with leading and trailing whitespace removed.
pub open spec fn trim_spec(s: Seq<char>) -> Seq<char>
    decreases s.len(),
{
    if s.len() == 0 {
        s
    } else if is_ws(s[0]) {
        trim_spec(s.drop_first())
    } else if is_ws(s.last()) {
        trim_spec(s.drop_last())
    } else {
        s
    }
}

/// The lines of a block of text: lines are separated by `'\n'`, and a
/// trailing `'\n'` closes the last line without opening an empty one.
pub open spec fn split_lines_spec(s: Seq<char>) -> Seq<Seq<char>>
    decreases s.len(),
{
    if s.len() == 0 {
        Seq::empty()
    } else if s[0] == '\n' {
        seq![Seq::<char>::empty()] + split_lines_spec(s.drop_first())
    } else {
        let rest = split_lines_spec(s.drop_first());
        if rest.len() == 0 {
            seq![seq![s[0]]]
        } else {
            seq![seq![s[0]] + rest[0]] + rest.drop_first()
        }
    }
}

/// Whether `c` is one of the whitespace characters that [`trim`] removes.
pub fn is_ws_char(c: char) -> (r: bool)
    ensures
        r == is_ws(c),
{
    let u = c as u32;
    c == ' ' || c == '\t' || c == '\n' || c == '\r' || c == '\u{000B}' || c == '\u{000C}' || c
        == '\u{0085}' || c == '\u{00A0}' || c == '\u{1680}' || (0x2000 <= u && u <= 0x200A) || c
        == '\u{2028}' || c == '\u{2029}' || c == '\u{202F}' || c == '\u{205F}' || c == '\u{3000}'
}

/// The characters of a string slice, in order.
pub fn chars_of(s: &str) -> (r: Vec<char>)
    ensures
        r@ == s@,
{
    let n = s.unicode_len();
    let mut out: Vec<char> = Vec::new();
    let mut i: usize = 0;
    while i < n
        invariant
            i <= n,
            n == s@.len(),
            out@ == s@.take(i as int),
        decreases n - i,
    {
        let c = s.get_char(i);
        out.push(c);
        proof {
            assert(out@ =~= s@.take(i + 1 as int));
        }
        i = i + 1;
    }
    proof {
        assert(s@.take(n as int) =~= s@);
    }
    out
}

/// A copy of `v` with leading and trailing whitespace characters removed.
pub fn trim(v: &Vec<char>) -> (r: Vec<char>)
    ensures
        r@ == trim_spec(v@),
{
    let mut lo: usize = 0;
    let mut hi: usize = v.len();
    proof {
        assert(v@.subrange(0, v@.len() as int) =~= v@);
    }
    while lo < hi && is_ws_char(v[lo])
        invariant
            lo <= hi <= v@.len(),
            trim_spec(v@) == trim_spec(v@.subrange(lo as int, hi as int)),
        decreases hi - lo,
    {
        proof {
            let cur = v@.subrange(lo as int, hi as int);
            assert(cur.drop_first() =~= v@.subrange(lo + 1 as int, hi as int));
        }
        lo = lo + 1;
    }
    while lo < hi && is_ws_char(v[hi - 1])
        invariant
            lo <= hi <= v@.len(),
            trim_spec(v@) == trim_spec(v@.subrange(lo as int, hi as int)),
            lo == hi || !is_ws(v@[lo as int]),
        decreases hi,
    {
        proof {
            let cur = v@.subrange(lo as int, hi as int);
            assert(cur.drop_last() =~= v@.subrange(lo as int, hi - 1 as int));
        }
        hi = hi - 1;
    }
    let mut out: Vec<char> = Vec::new();
    let mut i: usize = lo;
    while i < hi
        invariant
            lo <= i <= hi <= v@.len(),
            out@ == v@.subrange(lo as int, i as int),
        decreases hi - i,
    {
        out.push(v[i]);
        proof {
            assert(out@ =~= v@.subrange(lo as int, i + 1 as int));
        }
        i = i + 1;
    }
    proof {
        let cur = v@.subrange(lo as int, hi as int);
        if lo == hi {
            assert(cur.len() == 0);
        } else {
            assert(!is_ws(cur[0]));
            assert(!is_ws(cur.last()));
        }
        assert(trim_spec(cur) == cur);
    }
    out
}

/// A sequence that contains no line break.
pub open spec fn no_newline(s: Seq<char>) -> bool {
    forall|i: int| 0 <= i < s.len() ==> s[i] != '\n'
}

/// Splitting text without a line break yields that text as the only
/// line, or no line at all when the text is empty.
pub proof fn lemma_split_no_newline(s: Seq<char>)
    requires
        no_newline(s),
    ensures
        split_lines_spec(s) == if s.len() == 0 {
            Seq::<Seq<char>>::empty()
        } else {
            seq![s]
        },
    decreases s.len(),
{
    if s.len() > 0 {
        assert(s[0] != '\n');
        assert(no_newline(s.drop_first())) by {
            assert(forall|i: int|
                0 <= i < s.drop_first().len() ==> s.drop_first()[i] == s[i + 1]);
        }
        lemma_split_no_newline(s.drop_first());
        if s.drop_first().len() == 0 {
            assert(s =~= seq![s[0]]);
        } else {
            assert(seq![s[0]] + s.drop_first() =~= s);
            assert(split_lines_spec(s) =~= seq![s]);
        }
    }
}

/// The first line break closes the first line: splitting
/// `a + "\n" + b` yields `a` followed by the lines of `b`, whenever `a`
/// itself has no line break.
pub proof fn lemma_split_line_break(a: Seq<char>, b: Seq<char>)
    requires
        no_newline(a),
    ensures
        split_lines_spec(a + seq!['\n'] + b) == seq![a] + split_lines_spec(b),
    decreases a.len(),
{
    let s = a + seq!['\n'] + b;
    if a.len() == 0 {
        assert(s[0] == '\n');
        assert(s.drop_first() =~= b);
        assert(a =~= Seq::<char>::empty());
        assert(split_lines_spec(s) =~= seq![a] + split_lines_spec(b));
    } else {
        assert(s[0] == a[0]);
        assert(s[0] != '\n');
        assert(no_newline(a.drop_first())) by {
            assert(forall|i: int|
                0 <= i < a.drop_first().len() ==> a.drop_first()[i] == a[i + 1]);
        }
        lemma_split_line_break(a.drop_first(), b);
        assert(s.drop_first() =~= a.drop_first() + seq!['\n'] + b);
        let rest = split_lines_spec(s.drop_first());
        assert(rest == seq![a.drop_first()] + split_lines_spec(b));
        assert(rest.len() > 0);
        assert(rest[0] == a.drop_first());
        assert(seq![s[0]] + rest[0] =~= a);
        assert(rest.drop_first() =~= split_lines_spec(b));
        assert(split_lines_spec(s) =~= seq![a] + split_lines_spec(b));
    }
}

/// Relies on `String`'s `FromIterator<char>` implementation: collecting
/// the characters of a vector yields the string of exactly those
/// characters, in order.
#[verifier::external_body]
pub fn string_from_chars(v: &Vec<char>) -> (r: String)
    ensures
        r@ == v@,
{
    v.iter().collect()
}

/// The newline-delimited lines of `s`, as strings.
pub fn split_lines(s: &str) -> (r: Vec<String>)
    ensures
        r.deep_view() == split_lines_spec(s@),
{
    let cs = chars_of(s);
    let mut out: Vec<String> = Vec::new();
    let mut cur: Vec<char> = Vec::new();
    let mut i: usize = 0;
    proof {
        assert(cur@ + s@.skip(0) =~= s@);
        assert(out.deep_view() + split_lines_spec(s@) =~= split_lines_spec(s@));
    }
    while i < cs.len()
        invariant
            i <= cs@.len(),
            cs@ == s@,
            no_newline(cur@),
            split_lines_spec(s@) == out.deep_view() + split_lines_spec(
                cur@ + s@.skip(i as int),
            ),
        decreases cs@.len() - i,
    {
        let c = cs[i];
        let ghost prev_out = out.deep_view();
        let ghost prev_cur = cur@;
        if c == '\n' {
            let finished = string_from_chars(&cur);
            out.push(finished);
            cur = Vec::new();
            proof {
                lemma_split_line_break(prev_cur, s@.skip(i + 1 as int));
                assert(prev_cur + s@.skip(i as int) =~= prev_cur + seq!['\n'] + s@.skip(
                    i + 1 as int,
                ));
                assert(out.deep_view() =~= prev_out.push(prev_cur));
                assert(cur@ + s@.skip(i + 1 as int) =~= s@.skip(i + 1 as int));
                assert(out.deep_view() + split_lines_spec(s@.skip(i + 1 as int)) =~= prev_out + (
                seq![prev_cur] + split_lines_spec(s@.skip(i + 1 as int))));
            }
        } else {
            cur.push(c);
            proof {
                assert(cur@ + s@.skip(i + 1 as int) =~= prev_cur + s@.skip(i as int));
            }
        }
        i = i + 1;
    }
    proof {
        assert(cur@ + s@.skip(i as int) =~= cur@);
    }
    if cur.len() > 0 {
        let ghost prev_out = out.deep_view();
        proof {
            lemma_split_no_newline(cur@);
        }
        let finished = string_from_chars(&cur);
        out.push(finished);
        proof {
            assert(out.deep_view() =~= prev_out.push(cur@));
            assert(prev_out + seq![cur@] =~= prev_out.push(cur@));
        }
    } else {
        proof {
            lemma_split_no_newline(cur@);
            assert(out.deep_view() + Seq::<Seq<char>>::empty() =~= out.deep_view());
        }
    }
    out
}

} // verus!
