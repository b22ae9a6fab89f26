//! The parse capability injected into a session: the kinds of parse
//! failure, the mapping from a parse failure to an optional custom
//! message, and the [`InputTarget`] trait that a target type implements
//! to be read from a line of input.

use vstd::prelude::*;
use vstd::string::StringExecFns;

verus! {

/// Why a line of input could not be parsed into the target type.
#[derive(Clone, Copy, PartialEq, Eq, Structural, Debug)]
pub enum ParseError {
    /// The trimmed line was empty.
    Empty,
    /// The trimmed line contained a character the target type does not
    /// accept.
    Invalid,
    /// The line denoted a value outside the range of the target type.
    OutOfRange,
}

impl ParseError {
    /// The fixed description of this failure.
    pub open spec fn text_spec(self) -> Seq<char> {
        match self {
            ParseError::Empty => "cannot parse an empty string"@,
            ParseError::Invalid => "invalid character in input"@,
            ParseError::OutOfRange => "value out of range"@,
        }
    }

    /// The fixed description of this failure.
    pub fn text(&self) -> (r: String)
        ensures
            r@ == self.text_spec(),
    {
        match self {
            ParseError::Empty => "cannot parse an empty string".to_owned(),
            ParseError::Invalid => "invalid character in input".to_owned(),
            ParseError::OutOfRange => "value out of range".to_owned(),
        }
    }
}

/// The mathematical content of an [`ErrorMapper`].
pub enum MapperModel {
    /// Defer every failure to the session's fallback message.
    Ignore,
    /// Answer every failure with one fixed message.
    Always(Seq<char>),
    /// Answer per failure kind; `None` defers to the fallback message.
    ByKind {
        /// Message for [`ParseError::Empty`].
        empty: Option<Seq<char>>,
        /// Message for [`ParseError::Invalid`].
        invalid: Option<Seq<char>>,
        /// Message for [`ParseError::OutOfRange`].
        out_of_range: Option<Seq<char>>,
    },
    /// Quote the failure's own description.
    Displayed,
    /// Quote the failure's own description (kept for callers of the
    /// older naming).
    Described,
}

/// Turns the opaque parse failure into an optional custom message;
/// `None` means "use the session's fallback message".
#[derive(Clone)]
pub enum ErrorMapper {
    /// Defer every failure to the session's fallback message.
    Ignore,
    /// Answer every failure with one fixed message.
    Always(String),
    /// Answer per failure kind; `None` defers to the fallback message.
    ByKind {
        /// Message for [`ParseError::Empty`].
        empty: Option<String>,
        /// Message for [`ParseError::Invalid`].
        invalid: Option<String>,
        /// Message for [`ParseError::OutOfRange`].
        out_of_range: Option<String>,
    },
    /// Quote the failure's own description.
    Displayed,
    /// Quote the failure's own description (kept for callers of the
    /// older naming).
    Described,
}

impl View for ErrorMapper {
    type V = MapperModel;

    open spec fn view(&self) -> MapperModel {
        match self {
            ErrorMapper::Ignore => MapperModel::Ignore,
            ErrorMapper::Always(s) => MapperModel::Always(s@),
            ErrorMapper::ByKind { empty, invalid, out_of_range } => MapperModel::ByKind {
                empty: empty.deep_view(),
                invalid: invalid.deep_view(),
                out_of_range: out_of_range.deep_view(),
            },
            ErrorMapper::Displayed => MapperModel::Displayed,
            ErrorMapper::Described => MapperModel::Described,
        }
    }
}

/// The custom message, if any, that a mapper answers for a failure.
pub open spec fn mapper_msg_opt(m: MapperModel, e: ParseError) -> Option<Seq<char>> {
    match m {
        MapperModel::Ignore => None,
        MapperModel::Always(s) => Some(s),
        MapperModel::ByKind { empty, invalid, out_of_range } => match e {
            ParseError::Empty => empty,
            ParseError::Invalid => invalid,
            ParseError::OutOfRange => out_of_range,
        },
        MapperModel::Displayed => Some("Error: \""@ + e.text_spec() + "\""@),
        MapperModel::Described => Some("Error: \""@ + e.text_spec() + "\""@),
    }
}

impl ErrorMapper {
    /// The custom message, if any, for the failure `e`.
    pub fn apply(&self, e: &ParseError) -> (r: Option<String>)
        ensures
            r.deep_view() == mapper_msg_opt(self@, *e),
    {
        match self {
            ErrorMapper::Ignore => None,
            ErrorMapper::Always(s) => Some(s.clone()),
            ErrorMapper::ByKind { empty, invalid, out_of_range } => {
                let chosen: &Option<String> = match e {
                    ParseError::Empty => empty,
                    ParseError::Invalid => invalid,
                    ParseError::OutOfRange => out_of_range,
                };
                match chosen {
                    Some(s) => Some(s.clone()),
                    None => None,
                }
            },
            ErrorMapper::Displayed | ErrorMapper::Described => {
                let mut msg = "Error: \"".to_owned();
                msg.append(e.text().as_str());
                msg.append("\"");
                Some(msg)
            },
        }
    }
}

/// Whether `c` is a decimal digit.
pub open spec fn is_digit(c: char) -> bool {
    48 <= (c as u32) && (c as u32) <= 57
}

/// The numeric value of a decimal digit.
pub open spec fn digit_val(c: char) -> int {
    (c as u32) - 48
}

/// Whether every character of `s` is a decimal digit.
pub open spec fn all_digits(s: Seq<char>) -> bool {
    forall|i: int| 0 <= i < s.len() ==> is_digit(s[i])
}

/// The value of a sequence of decimal digits, most significant first.
pub open spec fn digits_val(s: Seq<char>) -> int
    decreases s.len(),
{
    if s.len() == 0 {
        0
    } else {
        digits_val(s.drop_last()) * 10 + digit_val(s.last())
    }
}

/// What parsing a trimmed line as an integer restricted to `[lo, hi]`
/// yields: an optional sign, then at least one decimal digit; any other
/// shape is rejected, and a well-formed number outside the range is
/// out of range.
pub open spec fn int_parse_spec(s: Seq<char>, lo: int, hi: int) -> Result<int, ParseError> {
    if s.len() == 0 {
        Err(ParseError::Empty)
    } else {
        let neg = s[0] == '-';
        let ds = if s[0] == '-' || s[0] == '+' {
            s.drop_first()
        } else {
            s
        };
        if ds.len() == 0 || !all_digits(ds) {
            Err(ParseError::Invalid)
        } else {
            let v = if neg {
                -digits_val(ds)
            } else {
                digits_val(ds)
            };
            if lo <= v && v <= hi {
                Ok(v)
            } else {
                Err(ParseError::OutOfRange)
            }
        }
    }
}

/// What parsing a trimmed line as an unsigned integer restricted to
/// `[0, hi]` yields: as [`int_parse_spec`], except that a leading
/// minus sign is rejected outright as an invalid character.
pub open spec fn uint_parse_spec(s: Seq<char>, hi: int) -> Result<int, ParseError> {
    if s.len() > 0 && s[0] == '-' {
        Err(ParseError::Invalid)
    } else {
        int_parse_spec(s, 0, hi)
    }
}

/// A sequence of digits has a non-negative value.
pub proof fn lemma_digits_val_nonneg(s: Seq<char>)
    requires
        all_digits(s),
    ensures
        digits_val(s) >= 0,
    decreases s.len(),
{
    if s.len() > 0 {
        assert(all_digits(s.drop_last()));
        lemma_digits_val_nonneg(s.drop_last());
        assert(is_digit(s.last()));
    }
}

/// The value of a prefix of a digit sequence never exceeds the value of
/// the whole sequence.
pub proof fn lemma_digits_val_prefix(s: Seq<char>, i: int)
    requires
        all_digits(s),
        0 <= i <= s.len(),
    ensures
        digits_val(s.take(i)) <= digits_val(s),
    decreases s.len() - i,
{
    if i == s.len() {
        assert(s.take(i) =~= s);
    } else {
        assert(all_digits(s.take(i)));
        lemma_digits_val_nonneg(s.take(i));
        assert(s.take(i + 1).drop_last() =~= s.take(i));
        assert(s.take(i + 1).last() == s[i]);
        assert(digits_val(s.take(i + 1)) == digits_val(s.take(i)) * 10 + digit_val(s[i]));
        assert(is_digit(s[i]));
        lemma_digits_val_prefix(s, i + 1);
    }
}

/// Whether `c` is a decimal digit.
pub fn is_digit_char(c: char) -> (r: bool)
    ensures
        r == is_digit(c),
{
    let u = c as u32;
    48 <= u && u <= 57
}

/// The numeric value of a decimal digit.
fn digit_of(c: char) -> (r: u64)
    requires
        is_digit(c),
    ensures
        r == digit_val(c),
        r <= 9,
{
    ((c as u32) - 48) as u64
}

/// Parses a trimmed line as a sign and a decimal magnitude, accepting
/// magnitudes up to `neg_limit` when negative and `pos_limit` otherwise.
pub(crate) fn parse_decimal(t: &Vec<char>, neg_limit: u64, pos_limit: u64) -> (r: Result<
    (bool, u64),
    ParseError,
>)
    ensures
        ({
            let m = int_parse_spec(t@, -(neg_limit as int), pos_limit as int);
            match (r, m) {
                (Ok(p), Ok(v)) => v == if p.0 {
                    -(p.1 as int)
                } else {
                    p.1 as int
                },
                (Err(e1), Err(e2)) => e1 == e2,
                _ => false,
            }
        }),
{
    let n = t.len();
    if n == 0 {
        return Err(ParseError::Empty);
    }
    let first = t[0];
    let neg = first == '-';
    let start: usize = if first == '-' || first == '+' {
        1
    } else {
        0
    };
    let ghost ds = if first == '-' || first == '+' {
        t@.drop_first()
    } else {
        t@
    };
    proof {
        assert(ds =~= t@.subrange(start as int, n as int));
    }
    if start >= n {
        return Err(ParseError::Invalid);
    }
    let mut i: usize = start;
    while i < n
        invariant
            start <= i <= n,
            0 < n == t@.len(),
            start == if t@[0] == '-' || t@[0] == '+' {
                1int
            } else {
                0int
            },
            ds == t@.subrange(start as int, n as int),
            forall|j: int| start <= j < i ==> is_digit(t@[j]),
        decreases n - i,
    {
        if !is_digit_char(t[i]) {
            proof {
                assert(ds[i - start] == t@[i as int]);
                assert(!all_digits(ds));
                if t@[0] == '-' || t@[0] == '+' {
                    assert(t@.drop_first() =~= t@.subrange(1, n as int));
                } else {
                    assert(t@.subrange(0, n as int) =~= t@);
                }
            }
            return Err(ParseError::Invalid);
        }
        i = i + 1;
    }
    proof {
        assert(all_digits(ds)) by {
            assert(forall|k: int| 0 <= k < ds.len() ==> ds[k] == t@[start + k]);
        }
    }
    let mut mag: u64 = 0;
    let mut i: usize = start;
    while i < n
        invariant
            start <= i <= n,
            0 < n == t@.len(),
            neg == (t@[0] == '-'),
            start == if t@[0] == '-' || t@[0] == '+' {
                1int
            } else {
                0int
            },
            ds == t@.subrange(start as int, n as int),
            all_digits(ds),
            forall|j: int| start <= j < n ==> is_digit(t@[j]),
            mag == digits_val(ds.take(i - start)),
        decreases n - i,
    {
        let d = digit_of(t[i]);
        let ghost prefix = ds.take(i - start);
        let ghost next_prefix = ds.take(i + 1 - start);
        proof {
            assert(next_prefix.drop_last() =~= prefix);
            assert(next_prefix.last() == ds[i - start] == t@[i as int]);
            assert(digits_val(next_prefix) == digits_val(prefix) * 10 + digit_val(t@[i as int]));
            assert(all_digits(next_prefix));
        }
        let m10 = match mag.checked_mul(10) {
            Some(v) => v,
            None => {
                proof {
                    lemma_digits_val_nonneg(prefix);
                    lemma_digits_val_prefix(ds, i + 1 - start);
                    assert(digits_val(next_prefix) > u64::MAX);
                    assert(digits_val(ds) > pos_limit);
                    assert(-digits_val(ds) < -(neg_limit as int));
                    if t@[0] == '-' || t@[0] == '+' {
                        assert(t@.drop_first() =~= t@.subrange(1, n as int));
                    } else {
                        assert(t@.subrange(0, n as int) =~= t@);
                    }
                }
                return Err(ParseError::OutOfRange);
            },
        };
        let m = match m10.checked_add(d) {
            Some(v) => v,
            None => {
                proof {
                    lemma_digits_val_prefix(ds, i + 1 - start);
                    assert(digits_val(next_prefix) > u64::MAX);
                    assert(digits_val(ds) > pos_limit);
                    assert(-digits_val(ds) < -(neg_limit as int));
                    if t@[0] == '-' || t@[0] == '+' {
                        assert(t@.drop_first() =~= t@.subrange(1, n as int));
                    } else {
                        assert(t@.subrange(0, n as int) =~= t@);
                    }
                }
                return Err(ParseError::OutOfRange);
            },
        };
        mag = m;
        i = i + 1;
    }
    proof {
        assert(ds.take(n - start) =~= ds);
        assert(mag == digits_val(ds));
    }
    if neg {
        if mag <= neg_limit {
            Ok((true, mag))
        } else {
            Err(ParseError::OutOfRange)
        }
    } else {
        if mag <= pos_limit {
            Ok((false, mag))
        } else {
            Err(ParseError::OutOfRange)
        }
    }
}

/// A type that a session can read from a line of input: it can be
/// parsed from the characters of a trimmed line, and it carries the
/// order and the value equality that range and set constraints use.
pub trait InputTarget: Sized {
    /// What parsing a trimmed line yields for this type.
    spec fn parse_spec(s: Seq<char>) -> Result<Self, ParseError>;

    /// The order used by range constraints: whether `self` is at most
    /// `other`.
    spec fn le_spec(self, other: Self) -> bool;

    /// Whether `self` is strictly below `other` in that order.
    spec fn lt_spec(self, other: Self) -> bool;

    /// The value equality used by set constraints.
    spec fn eq_spec(self, other: Self) -> bool;

    /// Parses the characters of a trimmed line.
    fn parse_from(s: &Vec<char>) -> (r: Result<Self, ParseError>)
        ensures
            r == Self::parse_spec(s@),
    ;

    /// Whether `self` is at most `other`.
    fn le(&self, other: &Self) -> (r: bool)
        ensures
            r == self.le_spec(*other),
    ;

    /// Whether `self` is strictly below `other`.
    fn lt(&self, other: &Self) -> (r: bool)
        ensures
            r == self.lt_spec(*other),
    ;

    /// Whether `self` equals `other`.
    fn eq_val(&self, other: &Self) -> (r: bool)
        ensures
            r == self.eq_spec(*other),
    ;
}

impl InputTarget for i64 {
    open spec fn parse_spec(s: Seq<char>) -> Result<i64, ParseError> {
        match int_parse_spec(s, i64::MIN as int, i64::MAX as int) {
            Ok(v) => Ok(v as i64),
            Err(e) => Err(e),
        }
    }

    open spec fn le_spec(self, other: i64) -> bool {
        self <= other
    }

    open spec fn lt_spec(self, other: i64) -> bool {
        self < other
    }

    open spec fn eq_spec(self, other: i64) -> bool {
        self == other
    }

    fn parse_from(s: &Vec<char>) -> (r: Result<i64, ParseError>) {
        match parse_decimal(s, 9223372036854775808u64, 9223372036854775807u64) {
            Ok(p) => {
                let (neg, mag) = p;
                if neg {
                    if mag == 9223372036854775808u64 {
                        Ok(i64::MIN)
                    } else {
                        proof {
                            assert(mag <= 9223372036854775807u64);
                        }
                        Ok(-(mag as i64))
                    }
                } else {
                    Ok(mag as i64)
                }
            },
            Err(e) => Err(e),
        }
    }

    fn le(&self, other: &Self) -> (r: bool) {
        *self <= *other
    }

    fn lt(&self, other: &Self) -> (r: bool) {
        *self < *other
    }

    fn eq_val(&self, other: &Self) -> (r: bool) {
        *self == *other
    }
}

impl InputTarget for i32 {
    open spec fn parse_spec(s: Seq<char>) -> Result<i32, ParseError> {
        match int_parse_spec(s, i32::MIN as int, i32::MAX as int) {
            Ok(v) => Ok(v as i32),
            Err(e) => Err(e),
        }
    }

    open spec fn le_spec(self, other: i32) -> bool {
        self <= other
    }

    open spec fn lt_spec(self, other: i32) -> bool {
        self < other
    }

    open spec fn eq_spec(self, other: i32) -> bool {
        self == other
    }

    fn parse_from(s: &Vec<char>) -> (r: Result<i32, ParseError>) {
        match parse_decimal(s, 2147483648u64, 2147483647u64) {
            Ok(p) => {
                let (neg, mag) = p;
                if neg {
                    if mag == 2147483648u64 {
                        Ok(i32::MIN)
                    } else {
                        proof {
                            assert(mag <= 2147483647u64);
                        }
                        Ok(-(mag as i32))
                    }
                } else {
                    Ok(mag as i32)
                }
            },
            Err(e) => Err(e),
        }
    }

    fn le(&self, other: &Self) -> (r: bool) {
        *self <= *other
    }

    fn lt(&self, other: &Self) -> (r: bool) {
        *self < *other
    }

    fn eq_val(&self, other: &Self) -> (r: bool) {
        *self == *other
    }
}

impl InputTarget for u64 {
    open spec fn parse_spec(s: Seq<char>) -> Result<u64, ParseError> {
        match uint_parse_spec(s, u64::MAX as int) {
            Ok(v) => Ok(v as u64),
            Err(e) => Err(e),
        }
    }

    open spec fn le_spec(self, other: u64) -> bool {
        self <= other
    }

    open spec fn lt_spec(self, other: u64) -> bool {
        self < other
    }

    open spec fn eq_spec(self, other: u64) -> bool {
        self == other
    }

    fn parse_from(s: &Vec<char>) -> (r: Result<u64, ParseError>) {
        if s.len() > 0 && s[0] == '-' {
            return Err(ParseError::Invalid);
        }
        match parse_decimal(s, 0u64, u64::MAX) {
            Ok(p) => {
                let (neg, mag) = p;
                if neg {
                    proof {
                        assert(mag == 0);
                    }
                    Ok(0u64)
                } else {
                    Ok(mag)
                }
            },
            Err(e) => Err(e),
        }
    }

    fn le(&self, other: &Self) -> (r: bool) {
        *self <= *other
    }

    fn lt(&self, other: &Self) -> (r: bool) {
        *self < *other
    }

    fn eq_val(&self, other: &Self) -> (r: bool) {
        *self == *other
    }
}

impl InputTarget for u32 {
    open spec fn parse_spec(s: Seq<char>) -> Result<u32, ParseError> {
        match uint_parse_spec(s, u32::MAX as int) {
            Ok(v) => Ok(v as u32),
            Err(e) => Err(e),
        }
    }

    open spec fn le_spec(self, other: u32) -> bool {
        self <= other
    }

    open spec fn lt_spec(self, other: u32) -> bool {
        self < other
    }

    open spec fn eq_spec(self, other: u32) -> bool {
        self == other
    }

    fn parse_from(s: &Vec<char>) -> (r: Result<u32, ParseError>) {
        if s.len() > 0 && s[0] == '-' {
            return Err(ParseError::Invalid);
        }
        match parse_decimal(s, 0u64, 4294967295u64) {
            Ok(p) => {
                let (neg, mag) = p;
                if neg {
                    proof {
                        assert(mag == 0);
                    }
                    Ok(0u32)
                } else {
                    Ok(mag as u32)
                }
            },
            Err(e) => Err(e),
        }
    }

    fn le(&self, other: &Self) -> (r: bool) {
        *self <= *other
    }

    fn lt(&self, other: &Self) -> (r: bool) {
        *self < *other
    }

    fn eq_val(&self, other: &Self) -> (r: bool) {
        *self == *other
    }
}

impl InputTarget for bool {
    open spec fn parse_spec(s: Seq<char>) -> Result<bool, ParseError> {
        if s == "true"@ {
            Ok(true)
        } else if s == "false"@ {
            Ok(false)
        } else if s.len() == 0 {
            Err(ParseError::Empty)
        } else {
            Err(ParseError::Invalid)
        }
    }

    open spec fn le_spec(self, other: bool) -> bool {
        !self || other
    }

    open spec fn lt_spec(self, other: bool) -> bool {
        !self && other
    }

    open spec fn eq_spec(self, other: bool) -> bool {
        self == other
    }

    fn parse_from(s: &Vec<char>) -> (r: Result<bool, ParseError>) {
        proof {
            reveal_strlit("true");
            reveal_strlit("false");
        }
        if s.len() == 4 && s[0] == 't' && s[1] == 'r' && s[2] == 'u' && s[3] == 'e' {
            proof {
                assert(s@ =~= "true"@);
            }
            Ok(true)
        } else if s.len() == 5 && s[0] == 'f' && s[1] == 'a' && s[2] == 'l' && s[3] == 's' && s[4]
            == 'e' {
            proof {
                assert(s@ =~= "false"@);
            }
            Ok(false)
        } else if s.len() == 0 {
            Err(ParseError::Empty)
        } else {
            Err(ParseError::Invalid)
        }
    }

    fn le(&self, other: &Self) -> (r: bool) {
        !*self || *other
    }

    fn lt(&self, other: &Self) -> (r: bool) {
        !*self && *other
    }

    fn eq_val(&self, other: &Self) -> (r: bool) {
        *self == *other
    }
}

impl InputTarget for char {
    open spec fn parse_spec(s: Seq<char>) -> Result<char, ParseError> {
        if s.len() == 1 {
            Ok(s[0])
        } else if s.len() == 0 {
            Err(ParseError::Empty)
        } else {
            Err(ParseError::Invalid)
        }
    }

    open spec fn le_spec(self, other: char) -> bool {
        (self as u32) <= (other as u32)
    }

    open spec fn lt_spec(self, other: char) -> bool {
        (self as u32) < (other as u32)
    }

    open spec fn eq_spec(self, other: char) -> bool {
        self == other
    }

    fn parse_from(s: &Vec<char>) -> (r: Result<char, ParseError>) {
        if s.len() == 1 {
            Ok(s[0])
        } else if s.len() == 0 {
            Err(ParseError::Empty)
        } else {
            Err(ParseError::Invalid)
        }
    }

    fn le(&self, other: &Self) -> (r: bool) {
        (*self as u32) <= (*other as u32)
    }

    fn lt(&self, other: &Self) -> (r: bool) {
        (*self as u32) < (*other as u32)
    }

    fn eq_val(&self, other: &Self) -> (r: bool) {
        *self == *other
    }
}

} // verus!
