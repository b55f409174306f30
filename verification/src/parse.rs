//! Reading numbers, booleans and lists out of the text of options.

use vstd::prelude::*;
use vstd::string::StrSliceExecFns;
use vstd::string::StringExecFns;

verus! {

/// Why a text is not the decimal form of a number.
#[derive(Clone, Copy, Debug, PartialEq, Eq, Structural)]
pub enum IntFailure {
    /// The text is empty.
    Empty,
    /// The text holds something else than digits behind an optional sign.
    InvalidDigit,
    /// The number is too large.
    PosOverflow,
}

impl IntFailure {
    /// The words that describe the failure.
    pub open spec fn description_spec(self) -> Seq<char> {
        match self {
            IntFailure::Empty => "cannot parse integer from empty string"@,
            IntFailure::InvalidDigit => "invalid digit found in string"@,
            IntFailure::PosOverflow => "number too large to fit in target type"@,
        }
    }

    /// The words that describe the failure.
    pub fn description(self) -> (s: &'static str)
        ensures
            s@ == self.description_spec(),
    {
        match self {
            IntFailure::Empty => "cannot parse integer from empty string",
            IntFailure::InvalidDigit => "invalid digit found in string",
            IntFailure::PosOverflow => "number too large to fit in target type",
        }
    }
}

/// Whether a character is a decimal digit.
pub open spec fn is_digit(c: char) -> bool {
    '0' <= c <= '9'
}

/// The number that a decimal digit stands for.
pub open spec fn digit_value(c: char) -> nat {
    (c as nat - '0' as nat) as nat
}

/// The number that a run of characters stands for when it is read from left
/// to right and may not grow beyond `max`: the first character that is no
/// digit, or that makes the number too large, ends the reading.
pub open spec fn scan(s: Seq<char>, max: nat) -> Result<nat, IntFailure>
    decreases s.len(),
{
    if s.len() == 0 {
        Ok(0)
    } else {
        match scan(s.drop_last(), max) {
            Err(e) => Err(e),
            Ok(v) => if !is_digit(s.last()) {
                Err(IntFailure::InvalidDigit)
            } else if v * 10 + digit_value(s.last()) > max {
                Err(IntFailure::PosOverflow)
            } else {
                Ok(v * 10 + digit_value(s.last()))
            },
        }
    }
}

/// The number that a text stands for: decimal digits behind an optional
/// `+`. The empty text, a lone sign and any other character are refused, and
/// so is a number above `max`.
pub open spec fn unsigned_spec(s: Seq<char>, max: nat) -> Result<nat, IntFailure> {
    if s.len() == 0 {
        Err(IntFailure::Empty)
    } else if s.len() == 1 && (s[0] == '+' || s[0] == '-') {
        Err(IntFailure::InvalidDigit)
    } else if s[0] == '+' {
        scan(s.subrange(1, s.len() as int), max)
    } else {
        scan(s, max)
    }
}

/// Reads a number of at most `max` from its decimal text.
pub fn parse_unsigned(s: &str, max: u64) -> (r: Result<u64, IntFailure>)
    ensures
        match r {
            Ok(v) => unsigned_spec(s@, max as nat) == Ok::<nat, IntFailure>(v as nat),
            Err(e) => unsigned_spec(s@, max as nat) == Err::<nat, IntFailure>(e),
        },
{
    let n = s.unicode_len();
    if n == 0 {
        return Err(IntFailure::Empty);
    }
    let first = s.get_char(0);
    if n == 1 && (first == '+' || first == '-') {
        return Err(IntFailure::InvalidDigit);
    }
    let start: usize = if first == '+' {
        1
    } else {
        0
    };
    let mut state: Result<u64, IntFailure> = Ok(0);
    let mut i: usize = start;
    assert(s@.subrange(start as int, start as int) =~= Seq::empty());
    while i < n
        invariant
            start <= i <= n,
            n == s@.len(),
            match state {
                Ok(v) => v <= max && scan(s@.subrange(start as int, i as int), max as nat) == Ok::<
                    nat,
                    IntFailure,
                >(v as nat),
                Err(e) => scan(s@.subrange(start as int, i as int), max as nat) == Err::<
                    nat,
                    IntFailure,
                >(e),
            },
        decreases n - i,
    {
        proof {
            let next = s@.subrange(start as int, i as int + 1);
            assert(next.drop_last() =~= s@.subrange(start as int, i as int));
            assert(next.last() == s@[i as int]);
        }
        let c = s.get_char(i);
        match state {
            Ok(v) => {
                if !('0' <= c && c <= '9') {
                    state = Err(IntFailure::InvalidDigit);
                } else {
                    let d: u64 = (c as u64) - ('0' as u64);
                    assert(d == digit_value(c));
                    if d > max {
                        state = Err(IntFailure::PosOverflow);
                    } else if v > (max - d) / 10 {
                        assert(v * 10 + d > max) by (nonlinear_arith)
                            requires
                                v > (max - d) / 10,
                                d <= max,
                        ;
                        state = Err(IntFailure::PosOverflow);
                    } else {
                        assert(v * 10 + d <= max) by (nonlinear_arith)
                            requires
                                v <= (max - d) / 10,
                                d <= max,
                        ;
                        state = Ok(v * 10 + d);
                    }
                }
            },
            Err(_) => {},
        }
        i += 1;
    }
    if start == 0 {
        assert(s@.subrange(0, n as int) =~= s@);
    }
    state
}

/// The boolean that a text stands for: `true` or `false`.
pub open spec fn bool_spec(s: Seq<char>) -> Option<bool> {
    if s == "true"@ {
        Some(true)
    } else if s == "false"@ {
        Some(false)
    } else {
        None
    }
}

/// What is said of a text that is no boolean.
pub open spec fn not_bool() -> Seq<char> {
    "provided string was not `true` or `false`"@
}

/// Reads a boolean from its text, `true` or `false`.
pub fn parse_bool(s: &str) -> (r: Option<bool>)
    ensures
        r == bool_spec(s@),
{
    let text = s.to_owned();
    if text == String::from_str("true") {
        Some(true)
    } else if text == String::from_str("false") {
        Some(false)
    } else {
        None
    }
}

/// The pieces of a text between the separators: one more piece than there
/// are separators, each possibly empty.
pub open spec fn split_spec(s: Seq<char>, sep: char) -> Seq<Seq<char>>
    decreases s.len(),
{
    if s.len() == 0 {
        seq![Seq::empty()]
    } else {
        let rest = split_spec(s.drop_last(), sep);
        if s.last() == sep {
            rest.push(Seq::empty())
        } else {
            rest.update(rest.len() - 1, rest.last().push(s.last()))
        }
    }
}

/// The texts of a list of strings.
pub open spec fn texts(pieces: Seq<String>) -> Seq<Seq<char>> {
    Seq::new(pieces.len(), |i: int| pieces[i]@)
}

/// Splits a text at each separator.
pub fn split(s: &str, sep: char) -> (pieces: Vec<String>)
    ensures
        texts(pieces@) == split_spec(s@, sep),
{
    let n = s.unicode_len();
    let mut pieces: Vec<String> = Vec::new();
    let mut start: usize = 0;
    let mut i: usize = 0;
    assert(s@.take(0) =~= Seq::empty());
    assert(texts(pieces@).push(s@.subrange(0, 0)) =~= seq![Seq::<char>::empty()]);
    while i < n
        invariant
            start <= i <= n,
            n == s@.len(),
            texts(pieces@).push(s@.subrange(start as int, i as int)) == split_spec(
                s@.take(i as int),
                sep,
            ),
        decreases n - i,
    {
        proof {
            assert(s@.take(i as int + 1).drop_last() =~= s@.take(i as int));
            assert(s@.take(i as int + 1).last() == s@[i as int]);
        }
        let ghost before = texts(pieces@);
        let ghost current = s@.subrange(start as int, i as int);
        let c = s.get_char(i);
        if c == sep {
            pieces.push(s.substring_char(start, i).to_owned());
            start = i + 1;
            assert(texts(pieces@) =~= before.push(current));
            assert(s@.subrange(start as int, i as int + 1) =~= Seq::<char>::empty());
        } else {
            assert(s@.subrange(start as int, i as int + 1) =~= current.push(c));
            assert(before.push(current).update(before.len() as int, current.push(c))
                =~= before.push(current.push(c)));
        }
        i += 1;
    }
    let ghost before = texts(pieces@);
    pieces.push(s.substring_char(start, n).to_owned());
    assert(texts(pieces@) =~= before.push(s@.subrange(start as int, n as int)));
    assert(s@.take(n as int) =~= s@);
    pieces
}

} // verus!
