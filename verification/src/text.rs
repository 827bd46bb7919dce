//! Small string operations with their meaning stated over characters.

use vstd::prelude::*;

verus! {

/// The character of one decimal digit.
pub open spec fn digit(value: nat) -> char
    recommends
        value < 10,
{
    if value == 0 {
        '0'
    } else if value == 1 {
        '1'
    } else if value == 2 {
        '2'
    } else if value == 3 {
        '3'
    } else if value == 4 {
        '4'
    } else if value == 5 {
        '5'
    } else if value == 6 {
        '6'
    } else if value == 7 {
        '7'
    } else if value == 8 {
        '8'
    } else {
        '9'
    }
}

/// A number written in decimal, without sign or leading zeros.
pub open spec fn decimal(value: nat) -> Seq<char>
    decreases value,
{
    if value < 10 {
        seq![digit(value)]
    } else {
        decimal(value / 10).push(digit(value % 10))
    }
}

/// `str::starts_with` with a string as the pattern: true exactly when the
/// characters of `prefix` open `text`.
#[verifier::external_body]
pub(crate) fn starts_with(text: &str, prefix: &str) -> (yes: bool)
    ensures
        yes == prefix@.is_prefix_of(text@),
{
    text.starts_with(prefix)
}

/// `format!` of a prefix and a number: the prefix followed by the number in
/// decimal, as `Display` writes an unsigned integer.
#[verifier::external_body]
pub(crate) fn with_number(prefix: &str, number: usize) -> (text: String)
    ensures
        text@ == prefix@ + decimal(number as nat),
{
    format!("{prefix}{number}")
}

} // verus!
