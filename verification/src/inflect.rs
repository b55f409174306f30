//! The case conventions by which names of types and fields become names on the
//! wire, and the decimal names of positional fields.

use vstd::prelude::*;
use vstd::string::StringExecFns;

verus! {

/// The `snake_case` form of a name, as the `inflector` crate computes it.
pub uninterp spec fn snake_case(name: Seq<char>) -> Seq<char>;

/// The `PascalCase` form of a name, as the `inflector` crate computes it.
pub uninterp spec fn pascal_case(name: Seq<char>) -> Seq<char>;

/// Converts a name to `snake_case`.
///
/// Trusted: calls `inflector::cases::snakecase::to_snake_case`, which returns
/// for every string a string that depends on its argument alone.
#[verifier::external_body]
pub(crate) fn to_snake_case(name: &str) -> (r: String)
    ensures
        r@ == snake_case(name@),
{
    inflector::cases::snakecase::to_snake_case(name)
}

/// Converts a name to `PascalCase`.
///
/// Trusted: calls `inflector::cases::pascalcase::to_pascal_case`, which
/// returns for every string a string that depends on its argument alone.
#[verifier::external_body]
pub(crate) fn to_pascal_case(name: &str) -> (r: String)
    ensures
        r@ == pascal_case(name@),
{
    inflector::cases::pascalcase::to_pascal_case(name)
}

/// The text of one decimal digit.
pub open spec fn digit_spec(d: nat) -> Seq<char> {
    if d == 0 {
        "0"@
    } else if d == 1 {
        "1"@
    } else if d == 2 {
        "2"@
    } else if d == 3 {
        "3"@
    } else if d == 4 {
        "4"@
    } else if d == 5 {
        "5"@
    } else if d == 6 {
        "6"@
    } else if d == 7 {
        "7"@
    } else if d == 8 {
        "8"@
    } else {
        "9"@
    }
}

/// The decimal text of a number, without leading zeros.
pub open spec fn decimal_spec(n: nat) -> Seq<char>
    decreases n,
{
    if n < 10 {
        digit_spec(n)
    } else {
        decimal_spec(n / 10) + digit_spec(n % 10)
    }
}

/// The text of one decimal digit.
fn digit(d: u64) -> (s: &'static str)
    requires
        d < 10,
    ensures
        s@ == digit_spec(d as nat),
{
    if d == 0 {
        "0"
    } else if d == 1 {
        "1"
    } else if d == 2 {
        "2"
    } else if d == 3 {
        "3"
    } else if d == 4 {
        "4"
    } else if d == 5 {
        "5"
    } else if d == 6 {
        "6"
    } else if d == 7 {
        "7"
    } else if d == 8 {
        "8"
    } else {
        "9"
    }
}

/// The decimal text of a number, without leading zeros.
pub fn decimal_u64(n: u64) -> (s: String)
    ensures
        s@ == decimal_spec(n as nat),
    decreases n,
{
    if n < 10 {
        String::from_str(digit(n))
    } else {
        decimal_u64(n / 10).concat(digit(n % 10))
    }
}

/// The decimal text of a number, without leading zeros.
pub fn decimal(n: usize) -> (s: String)
    ensures
        s@ == decimal_spec(n as nat),
{
    decimal_u64(n as u64)
}

/// The decimal text of a number that may be negative: a minus sign before
/// the digits of a negative number.
pub open spec fn signed_decimal_spec(i: int) -> Seq<char> {
    if i < 0 {
        "-"@ + decimal_spec((-i) as nat)
    } else {
        decimal_spec(i as nat)
    }
}

/// The decimal text of a number that may be negative.
pub fn signed_decimal(v: i64) -> (s: String)
    ensures
        s@ == signed_decimal_spec(v as int),
{
    if v < 0 {
        // The magnitude of the least number does not fit the signed type.
        let magnitude: u64 = ((-(v + 1)) as u64) + 1;
        String::from_str("-").concat(decimal_u64(magnitude).as_str())
    } else {
        decimal_u64(v as u64)
    }
}

} // verus!
