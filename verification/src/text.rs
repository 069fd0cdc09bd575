//! Text operations of the standard library that the verifier has no
//! specification for. Each contract here is believed, not proved.

use vstd::prelude::*;

verus! {

/// `str::eq`: whether two string slices hold the same characters.
#[verifier::external_body]
pub(crate) fn str_eq(a: &str, b: &str) -> (r: bool)
    ensures
        r == (a@ == b@),
{
    a == b
}

/// The character of a decimal digit.
pub open spec fn digit(d: nat) -> char {
    (48 + d) as char
}

/// The decimal numeral of a natural number, without leading zeros.
pub open spec fn decimal(n: nat) -> Seq<char>
    decreases n,
{
    if n < 10 {
        seq![digit(n)]
    } else {
        decimal(n / 10).push(digit(n % 10))
    }
}

/// `ToString::to_string` on a `usize`: its decimal numeral.
#[verifier::external_body]
pub(crate) fn usize_to_text(n: usize) -> (r: String)
    ensures
        r@ == decimal(n as nat),
{
    n.to_string()
}

/// `format!` of two string slices one after the other: the first text
/// followed by the second.
#[verifier::external_body]
pub(crate) fn concat(first: &str, second: &str) -> (r: String)
    ensures
        r@ == first@ + second@,
{
    format!("{}{}", first, second)
}

} // verus!
