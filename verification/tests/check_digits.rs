use government_id::is_digit;
use government_id::only_digits;
use government_id::tax_id::get_digit;
use government_id::tax_id::TaxpayerIdentificationNumber;
use government_id::tax_id::RATIO;

#[test]
fn weight_table_is_the_documented_one() {
    assert_eq!(RATIO, [3, 7, 2, 4, 10, 3, 5, 9, 4, 6, 8]);
    assert_eq!(RATIO.len(), 11);
}

#[test]
fn is_digit_accepts_zero_to_nine_only() {
    for c in ['0', '1', '2', '3', '4', '5', '6', '7', '8', '9'] {
        assert!(is_digit(c), "{}", c);
    }
    for c in ['/', ':', 'a', 'f', 'Z', ' ', '-', '\u{660}', '\u{ff10}', '\u{b2}'] {
        assert!(!is_digit(c), "{}", c);
    }
}

#[test]
fn only_digits_looks_at_every_character() {
    assert!(only_digits(""));
    assert!(only_digits("0"));
    assert!(only_digits("0123456789"));
    assert!(!only_digits("a"));
    assert!(!only_digits("a123"));
    assert!(!only_digits("12a3"));
    assert!(!only_digits("123a"));
    assert!(!only_digits("12 3"));
    assert!(!only_digits("\u{661}\u{662}"));
}

#[test]
fn get_digit_reads_each_position() {
    let text = "7827004526";
    let expected = [7, 8, 2, 7, 0, 0, 4, 5, 2, 6];
    for n in 0..10 {
        assert_eq!(get_digit(text, n), expected[n], "{}", n);
    }
}

#[test]
fn get_digit_is_zero_beyond_the_end() {
    assert_eq!(get_digit("", 0), 0);
    assert_eq!(get_digit("9", 1), 0);
    assert_eq!(get_digit("999", 3), 0);
    assert_eq!(get_digit("999", 4), 0);
    assert_eq!(get_digit("999", usize::MAX), 0);
}

#[test]
fn get_digit_is_zero_for_what_is_no_digit() {
    assert_eq!(get_digit("9a9", 1), 0);
    assert_eq!(get_digit("/", 0), 0);
    assert_eq!(get_digit(":", 0), 0);
    assert_eq!(get_digit("\u{669}", 0), 0);
}

#[test]
fn get_digit_counts_characters_not_bytes() {
    // the first character takes two bytes
    assert_eq!(get_digit("\u{e9}5", 1), 5);
    assert_eq!(get_digit("\u{e9}5", 2), 0);
}

#[test]
fn check_digit_of_a_known_number() {
    let tin = TaxpayerIdentificationNumber::new("7827004526");
    // 14 + 32 + 20 + 21 + 0 + 0 + 16 + 30 + 16 = 149, 149 % 11 = 6
    assert_eq!(tin.check_digit(&RATIO[2..]), 6);
    assert_eq!(tin.check_digit(&[2, 4, 10, 3, 5, 9, 4, 6, 8]), 6);
}

#[test]
fn check_digits_of_a_known_number_of_twelve_digits() {
    let tin = TaxpayerIdentificationNumber::new("760307073214");
    // 49 + 12 + 0 + 30 + 0 + 35 + 0 + 28 + 18 + 16 = 188, 188 % 11 = 1
    assert_eq!(tin.check_digit(&RATIO[1..]), 1);
    // 21 + 42 + 0 + 12 + 0 + 21 + 0 + 63 + 12 + 12 + 8 = 191, 191 % 11 = 4
    assert_eq!(tin.check_digit(&RATIO[..]), 4);
}

#[test]
fn check_digit_without_weights_is_zero() {
    let tin = TaxpayerIdentificationNumber::new("7827004526");
    assert_eq!(tin.check_digit(&[]), 0);
}

#[test]
fn check_digit_maps_a_remainder_of_ten_to_zero() {
    // 5 * 2 = 10, 10 % 11 = 10, 10 % 10 = 0
    assert_eq!(TaxpayerIdentificationNumber::new("5").check_digit(&[2]), 0);
    // 9 * 9 + 9 * 2 = 99, 99 % 11 = 0
    assert_eq!(TaxpayerIdentificationNumber::new("99").check_digit(&[9, 2]), 0);
    // 9 * 1 = 9
    assert_eq!(TaxpayerIdentificationNumber::new("9").check_digit(&[1]), 9);
    // 9 * 9 + 9 * 3 = 108, 108 % 11 = 9
    assert_eq!(TaxpayerIdentificationNumber::new("99").check_digit(&[9, 3]), 9);
}

#[test]
fn check_digit_reads_zero_past_the_text_and_for_letters() {
    // only the first two positions hold digits: 1 * 1 + 2 * 1 = 3
    assert_eq!(
        TaxpayerIdentificationNumber::new("12").check_digit(&[1, 1, 1, 1]),
        3
    );
    // the letter counts as 0: 1 * 1 + 0 * 1 + 3 * 1 = 4
    assert_eq!(
        TaxpayerIdentificationNumber::new("1x3").check_digit(&[1, 1, 1]),
        4
    );
}

#[test]
fn check_digit_holds_for_the_largest_weights() {
    let tin = TaxpayerIdentificationNumber::new("999999999");
    // 4294967295 % 11 = 3, so the sum is 81 * 3 = 243 modulo 11, which is 1
    assert_eq!(tin.check_digit(&[u32::MAX; 9]), 1);
    // 9 * 4294967295 = 38654705655, 38654705655 % 11 = 27 % 11 = 5
    assert_eq!(
        TaxpayerIdentificationNumber::new("9").check_digit(&[u32::MAX]),
        5
    );
}

#[test]
fn check_len10_compares_the_tenth_digit() {
    assert!(TaxpayerIdentificationNumber::new("7827004526").check_len10());
    assert!(!TaxpayerIdentificationNumber::new("7827004527").check_len10());
    assert!(TaxpayerIdentificationNumber::new("0000000000").check_len10());
    // nothing at position 9 reads as 0; the check digit of "55" is 30 % 11 = 8
    assert!(!TaxpayerIdentificationNumber::new("55").check_len10());
    assert!(TaxpayerIdentificationNumber::new("").check_len10());
}

#[test]
fn check_len12_compares_both_check_digits() {
    assert!(TaxpayerIdentificationNumber::new("760307073214").check_len12());
    assert!(!TaxpayerIdentificationNumber::new("760307073217").check_len12());
    assert!(!TaxpayerIdentificationNumber::new("760307073224").check_len12());
    assert!(TaxpayerIdentificationNumber::new("000000000000").check_len12());
    assert!(TaxpayerIdentificationNumber::new("").check_len12());
}
