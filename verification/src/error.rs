//! Why an identifier could not be checked.

use vstd::prelude::*;

verus! {

/// The reason a text was rejected before any check digit was computed.
#[derive(Debug, Clone, Copy, PartialEq, Eq, Structural)]
pub enum Error {
    /// The text has no characters.
    Empty,
    /// The text holds a character other than `0`..`9`.
    ExpectedNumbersOnly,
    /// The text is all digits, but of a length no identifier has.
    /// `length` is the nearest supported length, offered as a hint.
    WrongLength { length: usize },
}

} // verus!
