//! Validation of Russian government-issued numeric identifiers.
//!
//! The taxpayer identification number (INN) is checked for form and for
//! its weighted check digits; every executable function is verified
//! against a mathematical description of the rule.

use vstd::prelude::*;

pub mod error;
pub mod tax_id;

pub use error::Error;
pub use tax_id::TaxpayerIdentificationNumber;

verus! {

/// What a validation returns: whether the check digits match, or why the
/// text could not be checked at all.
pub type ValidResult = Result<bool, Error>;

/// An identifier that can be checked for validity.
pub trait Validate {
    /// Returns whether the identifier is valid, or why that could not be
    /// decided.
    fn is_valid(&self) -> ValidResult;
}

/// `c` is one of the ten decimal digits `0`..`9`.
pub open spec fn is_decimal_digit(c: char) -> bool {
    '0' <= c <= '9'
}

/// Every character of `text` is a decimal digit.
pub open spec fn all_decimal_digits(text: Seq<char>) -> bool {
    forall|i: int| 0 <= i < text.len() ==> is_decimal_digit(#[trigger] text[i])
}

/// Tells whether `c` is a decimal digit.
pub fn is_digit(c: char) -> (b: bool)
    ensures
        b == is_decimal_digit(c),
{
    '0' <= c && c <= '9'
}

/// Tells whether every character of `input` is a decimal digit.
pub fn only_digits(input: &str) -> (b: bool)
    ensures
        b == all_decimal_digits(input@),
{
    for c in it: input.chars()
        invariant
            it.seq() == input@,
            forall|j: int| 0 <= j < it.index() ==> is_decimal_digit(#[trigger] input@[j]),
    {
        if !is_digit(c) {
            return false;
        }
    }
    true
}

} // verus!
