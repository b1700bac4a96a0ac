//! The taxpayer identification number (INN) and its check digits.
//!
//! An INN has ten digits (a legal entity) or twelve (an individual). The
//! last digit of the former, and the last two of the latter, are check
//! digits: each is the sum of the digits before it, weighted by position,
//! taken modulo 11 and then modulo 10.
//!
//! The rule is written down once as a mathematical description
//! ([`validity`] and the functions it is made of). The executable
//! functions are proved to compute it, and the proof functions that follow
//! them state what holds of it for every text.

use vstd::prelude::*;
use vstd::slice::slice_subrange;
use vstd::utf8::encode_utf8;
use vstd::utf8::is_ascii_chars;
use vstd::utf8::is_ascii_chars_encode_utf8;
use crate::error::Error;
use crate::all_decimal_digits;
use crate::is_decimal_digit;
use crate::is_digit;
use crate::only_digits;
use crate::ValidResult;
use crate::Validate;

verus! {

/// The weights of the check-digit scheme. An identifier of ten digits uses
/// the last nine of them; one of twelve digits uses the last ten for its
/// first check digit and all eleven for its second.
pub const RATIO: [u32; 11] = [3, 7, 2, 4, 10, 3, 5, 9, 4, 6, 8];

/// The weights that stand from position `from` of the table to its end.
pub open spec fn weights_from(from: int) -> Seq<u32>
    recommends
        0 <= from <= 11,
{
    RATIO@.subrange(from, 11)
}

/// The value of `c` as a decimal digit, and 0 where it is none.
pub open spec fn digit_value(c: char) -> int {
    if is_decimal_digit(c) {
        c as int - '0' as int
    } else {
        0
    }
}

/// The digit at position `n` of `text`; 0 where `n` lies beyond the end of
/// the text or the character there is no decimal digit.
pub open spec fn digit_at(text: Seq<char>, n: int) -> int {
    if 0 <= n < text.len() {
        digit_value(text[n])
    } else {
        0
    }
}

/// The sum of the first `k` digits of `text`, each multiplied by the
/// weight at its position.
pub open spec fn weighted_sum(text: Seq<char>, w: Seq<u32>, k: int) -> int
    decreases k,
{
    if k <= 0 {
        0
    } else {
        weighted_sum(text, w, k - 1) + digit_at(text, k - 1) * w[k - 1]
    }
}

/// The check digit that the weights `w` give for `text`: the weighted sum
/// of its leading digits modulo 11, and that modulo 10, so that a remainder
/// of 10 counts as 0.
pub open spec fn check_digit_of(text: Seq<char>, w: Seq<u32>) -> int {
    weighted_sum(text, w, w.len() as int) % 11 % 10
}

/// The check digit of a ten-digit identifier stands at position 9 and
/// agrees with the one computed from the nine digits before it.
pub open spec fn matches_len10(text: Seq<char>) -> bool {
    check_digit_of(text, weights_from(2)) == digit_at(text, 9)
}

/// The two check digits of a twelve-digit identifier stand at positions 10
/// and 11; each agrees with the one computed from the digits before it.
pub open spec fn matches_len12(text: Seq<char>) -> bool {
    &&& check_digit_of(text, weights_from(1)) == digit_at(text, 10)
    &&& check_digit_of(text, weights_from(0)) == digit_at(text, 11)
}

/// The outcome of validating `text` as a taxpayer identification number.
///
/// An empty text and a text with anything but decimal digits are rejected
/// as such, in this order. A text of ten or twelve digits is checked, and
/// the outcome says whether its check digits match. Digits of any other
/// number are of the wrong length; the error names the nearest length that
/// is supported, which is 10 for up to nine digits and 12 otherwise.
pub open spec fn validity(text: Seq<char>) -> ValidResult {
    if text.len() == 0 {
        Err(Error::Empty)
    } else if !all_decimal_digits(text) {
        Err(Error::ExpectedNumbersOnly)
    } else if text.len() == 12 {
        Ok(matches_len12(text))
    } else if text.len() == 10 {
        Ok(matches_len10(text))
    } else if text.len() <= 9 {
        Err(Error::WrongLength { length: 10 })
    } else {
        Err(Error::WrongLength { length: 12 })
    }
}

/// A candidate taxpayer identification number: the text exactly as it was
/// supplied, with nothing trimmed or normalised.
pub struct TaxpayerIdentificationNumber {
    value: String,
}

impl View for TaxpayerIdentificationNumber {
    type V = Seq<char>;

    /// The characters of the candidate number.
    closed spec fn view(&self) -> Seq<char> {
        self.value@
    }
}

impl TaxpayerIdentificationNumber {
    /// Creates a new `TaxpayerIdentificationNumber` that holds `input`.
    pub fn new(input: &str) -> (tin: Self)
        ensures
            tin@ == input@,
    {
        TaxpayerIdentificationNumber { value: input.to_owned() }
    }

    /// Verifies the two check digits of an individual's identifier.
    pub fn check_len12(&self) -> (ok: bool)
        ensures
            ok == matches_len12(self@),
    {
        let calc_num1: u32 = self.check_digit(slice_subrange(RATIO.as_slice(), 1, 11));
        let calc_num2: u32 = self.check_digit(RATIO.as_slice());
        assert(RATIO@ =~= weights_from(0));

        calc_num1 == get_digit(self.value.as_str(), 10) && calc_num2 == get_digit(
            self.value.as_str(),
            11,
        )
    }

    /// Verifies the check digit of a legal entity's identifier.
    pub fn check_len10(&self) -> (ok: bool)
        ensures
            ok == matches_len10(self@),
    {
        let calc_num: u32 = self.check_digit(slice_subrange(RATIO.as_slice(), 2, 11));

        calc_num == get_digit(self.value.as_str(), 9)
    }

    /// Calculates the check digit that the weights `r` give for the number.
    pub fn check_digit(&self, r: &[u32]) -> (d: u32)
        ensures
            d == check_digit_of(self@, r@),
            d <= 9,
    {
        // The running sum is kept reduced modulo 11, so that no table of
        // weights, however long or large, can overflow it.
        let mut sum: u64 = 0;

        for i in 0..r.len()
            invariant
                sum == weighted_sum(self@, r@, i as int) % 11,
        {
            let num: u32 = get_digit(self.value.as_str(), i);
            assert(num * r[i as int] <= 9 * u32::MAX) by (nonlinear_arith)
                requires
                    num <= 9,
                    r[i as int] <= u32::MAX,
            ;
            sum = (sum + num as u64 * r[i] as u64) % 11;
        }
        (sum % 10) as u32
    }
}

/// Gets the digit at position `n` of `input`, or 0 where there is none:
/// where `n` lies beyond the end of the text, or the character there is no
/// decimal digit. The result does not tell a missing digit from a digit 0;
/// a caller to whom that matters checks the text first, as `is_valid` does.
pub fn get_digit(input: &str, n: usize) -> (d: u32)
    ensures
        d == digit_at(input@, n as int),
        d <= 9,
{
    if n < input.unicode_len() {
        let ch = input.get_char(n);
        if is_digit(ch) {
            ch as u32 - '0' as u32
        } else {
            0
        }
    } else {
        0
    }
}

impl Validate for TaxpayerIdentificationNumber {
    /// Checks the form of the number and then its check digits.
    fn is_valid(&self) -> (result: ValidResult)
        ensures
            result == validity(self@),
    {
        let text = self.value.as_str();
        if text.is_empty() {
            return Err(Error::Empty);
        }
        if !only_digits(text) {
            return Err(Error::ExpectedNumbersOnly);
        }
        proof {
            lemma_digits_take_one_byte_each(text@);
        }
        // The length in bytes, which for digits is the number of characters.
        match text.as_bytes().len() {
            12 => Ok(self.check_len12()),
            10 => Ok(self.check_len10()),
            1..=9 => Err(Error::WrongLength { length: 10 }),
            11 => Err(Error::WrongLength { length: 12 }),
            _ => Err(Error::WrongLength { length: 12 }),
        }
    }
}

impl From<String> for TaxpayerIdentificationNumber {
    /// Takes `other` as the text of the number, unchanged.
    fn from(other: String) -> (tin: TaxpayerIdentificationNumber)
        ensures
            tin@ == other@,
    {
        TaxpayerIdentificationNumber { value: other }
    }
}

impl vstd::std_specs::convert::FromSpecImpl<String> for TaxpayerIdentificationNumber {
    open spec fn obeys_from_spec() -> bool {
        true
    }

    closed spec fn from_spec(other: String) -> Self {
        TaxpayerIdentificationNumber { value: other }
    }
}

/// A text of decimal digits is encoded with one byte for each character.
proof fn lemma_digits_take_one_byte_each(text: Seq<char>)
    requires
        all_decimal_digits(text),
    ensures
        encode_utf8(text).len() == text.len(),
{
    assert(is_ascii_chars(text)) by {
        assert forall|i: int| 0 <= i < text.len() implies '\0' <= #[trigger] text[i]
            <= '\u{7f}' by {
            assert(is_decimal_digit(text[i]));
        }
    }
    is_ascii_chars_encode_utf8(text);
}

/// A number of ten decimal digits is always checked: validation returns
/// whether its check digit matches, never an error.
pub proof fn ten_digits_are_checked(text: Seq<char>)
    requires
        text.len() == 10,
        all_decimal_digits(text),
    ensures
        validity(text) == Ok::<bool, Error>(matches_len10(text)),
{
}

/// A number of twelve decimal digits is always checked: validation returns
/// whether both check digits match, never an error.
pub proof fn twelve_digits_are_checked(text: Seq<char>)
    requires
        text.len() == 12,
        all_decimal_digits(text),
    ensures
        validity(text) == Ok::<bool, Error>(matches_len12(text)),
{
}

/// A text that is not empty and has neither ten nor twelve characters is
/// never checked. Made of digits alone it is of the wrong length, and the
/// hint is 10 for a text of up to nine digits and 12 for a longer one;
/// otherwise digits were expected.
pub proof fn other_lengths_are_rejected(text: Seq<char>)
    requires
        text.len() != 0,
        text.len() != 10,
        text.len() != 12,
    ensures
        all_decimal_digits(text) && text.len() <= 9 ==> validity(text) == Err::<bool, Error>(
            Error::WrongLength { length: 10 },
        ),
        all_decimal_digits(text) && text.len() >= 11 ==> validity(text) == Err::<bool, Error>(
            Error::WrongLength { length: 12 },
        ),
        !all_decimal_digits(text) ==> validity(text) == Err::<bool, Error>(
            Error::ExpectedNumbersOnly,
        ),
{
}

/// The empty text is rejected as empty.
pub proof fn empty_text_is_rejected()
    ensures
        validity(Seq::<char>::empty()) == Err::<bool, Error>(Error::Empty),
{
}

/// A text that holds a character other than a decimal digit, at whatever
/// position and whatever its length, is rejected because digits were
/// expected.
pub proof fn non_digit_is_rejected(text: Seq<char>, i: int)
    requires
        0 <= i < text.len(),
        !is_decimal_digit(text[i]),
    ensures
        validity(text) == Err::<bool, Error>(Error::ExpectedNumbersOnly),
{
}

/// Validation computes check digits exactly for the texts of ten or twelve
/// decimal digits, and returns an error for every other text.
pub proof fn checked_iff_well_formed(text: Seq<char>)
    ensures
        validity(text) is Ok <==> all_decimal_digits(text) && (text.len() == 10 || text.len()
            == 12),
{
}

/// The outcome of a validation depends on the text alone: two numbers that
/// hold the same text are judged alike, and so is one number judged twice.
pub proof fn same_text_same_outcome(
    a: TaxpayerIdentificationNumber,
    b: TaxpayerIdentificationNumber,
)
    requires
        a@ == b@,
    ensures
        validity(a@) == validity(b@),
{
}

/// Every check digit is a single decimal digit.
pub proof fn check_digit_is_a_digit(text: Seq<char>, w: Seq<u32>)
    ensures
        0 <= check_digit_of(text, w) <= 9,
{
}

/// The weighted sum of the first `k` digits reads no other position: two
/// texts with the same digits there have the same sum.
pub proof fn weighted_sum_reads_leading_digits(a: Seq<char>, b: Seq<char>, w: Seq<u32>, k: int)
    requires
        forall|i: int| 0 <= i < k ==> digit_at(a, i) == digit_at(b, i),
    ensures
        weighted_sum(a, w, k) == weighted_sum(b, w, k),
    decreases k,
{
    if k > 0 {
        weighted_sum_reads_leading_digits(a, b, w, k - 1);
    }
}

/// The first nine digits of a ten-digit number decide its last: two valid
/// numbers that share them are the same number.
pub proof fn ten_digits_share_one_check_digit(a: Seq<char>, b: Seq<char>)
    requires
        a.len() == 10,
        b.len() == 10,
        a.take(9) == b.take(9),
        validity(a) == Ok::<bool, Error>(true),
        validity(b) == Ok::<bool, Error>(true),
    ensures
        a == b,
{
    assert forall|i: int| 0 <= i < 9 implies a[i] == b[i] by {
        assert(a[i] == a.take(9)[i]);
        assert(b[i] == b.take(9)[i]);
    }
    weighted_sum_reads_leading_digits(a, b, weights_from(2), 9);
    assert(a[9] == b[9]);
    assert(a =~= b);
}

/// The first ten digits of a twelve-digit number decide its last two: two
/// valid numbers that share them are the same number.
pub proof fn twelve_digits_share_one_pair_of_check_digits(a: Seq<char>, b: Seq<char>)
    requires
        a.len() == 12,
        b.len() == 12,
        a.take(10) == b.take(10),
        validity(a) == Ok::<bool, Error>(true),
        validity(b) == Ok::<bool, Error>(true),
    ensures
        a == b,
{
    assert forall|i: int| 0 <= i < 10 implies a[i] == b[i] by {
        assert(a[i] == a.take(10)[i]);
        assert(b[i] == b.take(10)[i]);
    }
    weighted_sum_reads_leading_digits(a, b, weights_from(1), 10);
    assert(a[10] == b[10]);
    weighted_sum_reads_leading_digits(a, b, weights_from(0), 11);
    assert(a[11] == b[11]);
    assert(a =~= b);
}

} // verus!
