use iso4217::parse::to_ascii_upper;
use iso4217::Currency;

#[test]
fn empty_text_falls_back() {
    assert_eq!(Currency::from_alpha(""), Currency::XXX);
}

#[test]
fn short_text_falls_back() {
    assert_eq!(Currency::from_alpha("U"), Currency::XXX);
    assert_eq!(Currency::from_alpha("US"), Currency::XXX);
    assert_eq!(Currency::from_alpha("us"), Currency::XXX);
    assert_eq!(Currency::from("US"), Currency::XXX);
}

#[test]
fn parsing_ignores_case() {
    assert_eq!(Currency::from_alpha("usd"), Currency::USD);
    assert_eq!(Currency::from_alpha("USD"), Currency::USD);
    assert_eq!(Currency::from_alpha("Usd"), Currency::USD);
    assert_eq!(Currency::from_alpha("uSd"), Currency::USD);
    assert_eq!(Currency::from_alpha("usd"), Currency::from_alpha("USD"));
    assert_eq!(Currency::from("eur"), Currency::EUR);
}

#[test]
fn parsing_ignores_what_follows_the_code() {
    assert_eq!(Currency::from_alpha("USDX"), Currency::USD);
    assert_eq!(Currency::from_alpha("usd and more"), Currency::USD);
    assert_eq!(Currency::from_alpha("EUR\0"), Currency::EUR);
    assert_eq!(Currency::from_alpha("XUSD"), Currency::XXX);
}

#[test]
fn unknown_code_falls_back() {
    assert_eq!(Currency::from_alpha("ZZZ"), Currency::XXX);
    assert_eq!(Currency::from_alpha("zzz"), Currency::XXX);
    assert_eq!(Currency::from_alpha("123"), Currency::XXX);
    assert_eq!(Currency::from_alpha("   "), Currency::XXX);
    assert_eq!(Currency::from_alpha(" USD"), Currency::XXX);
    assert_eq!(Currency::from_alpha("U$D"), Currency::XXX);
}

#[test]
fn sentinel_parses_to_itself() {
    assert_eq!(Currency::from_alpha("XXX"), Currency::XXX);
    assert_eq!(Currency::from_alpha("xxx"), Currency::XXX);
}

#[test]
fn default_is_the_sentinel() {
    assert_eq!(Currency::default(), Currency::XXX);
    assert_eq!(Currency::new(), Currency::XXX);
    assert_eq!(Currency::default(), Currency::from_alpha("XXX"));
    assert_eq!(Currency::default().to_numeric(), 999);
    assert_eq!(Currency::default().to_alpha(), "XXX");
    assert_eq!(Currency::default().name(), "No country code");
}

#[test]
fn euro_scenario() {
    assert_eq!(Currency::EUR.to_numeric(), 978);
    assert_eq!(Currency::EUR.name(), "Euro");
    assert_eq!(Currency::EUR.to_alpha(), "EUR");
    assert_eq!(u32::from(Currency::EUR), 978);
    let code: &str = Currency::EUR.into();
    assert_eq!(code, "EUR");
}

#[test]
fn small_numeric_codes_keep_their_value() {
    assert_eq!(Currency::ALL.to_numeric(), 8);
    assert_eq!(Currency::DZD.to_numeric(), 12);
    assert_eq!(Currency::AMD.to_numeric(), 51);
    assert_eq!(Currency::USD.to_numeric(), 840);
}

#[test]
fn names_keep_their_accents() {
    assert_eq!(Currency::MNT.name(), "Mongolian tögrög");
    assert_eq!(Currency::STN.name(), "São Tomé and Príncipe dobra");
}

#[test]
fn display_of_us_dollar() {
    let shown = Currency::USD.display();
    assert_eq!(shown, "\"USD\"");
    assert_eq!(shown.chars().count(), 5);
    assert_ne!(shown, Currency::USD.to_alpha());
}

#[test]
fn fixed_bytes_of_us_dollar() {
    assert_eq!(Currency::USD.to_fixed_bytes(), [0x55, 0x53, 0x44, 0]);
    let record: [i8; 4] = Currency::USD.into();
    assert_eq!(record, [85, 83, 68, 0]);
}

#[test]
fn bytes_scenario() {
    assert_eq!(Currency::from_bytes(&[0x55, 0x53, 0x44]), Currency::USD);
    assert_eq!(Currency::from([0x55u8, 0x53, 0x44]), Currency::USD);
    assert_eq!(Currency::from(&[0x55u8, 0x53, 0x44]), Currency::USD);
    assert_eq!(Currency::from(&[0x55u8, 0x53, 0x44][..]), Currency::USD);
}

#[test]
fn bytes_ignore_case_and_what_follows() {
    assert_eq!(Currency::from_bytes(b"usd"), Currency::USD);
    assert_eq!(Currency::from_bytes(b"USD\0"), Currency::USD);
    assert_eq!(Currency::from_bytes(b"eur and more"), Currency::EUR);
    assert_eq!(Currency::from([0x55u8, 0x53, 0x44, 0, 0, 0, 0, 0]), Currency::USD);
}

#[test]
fn short_bytes_fall_back() {
    assert_eq!(Currency::from_bytes(&[]), Currency::XXX);
    assert_eq!(Currency::from_bytes(b"U"), Currency::XXX);
    assert_eq!(Currency::from_bytes(b"US"), Currency::XXX);
    assert_eq!(Currency::from([0x55u8, 0x53]), Currency::XXX);
    assert_eq!(Currency::from_signed_bytes(&[]), Currency::XXX);
    assert_eq!(Currency::from([85i8, 83]), Currency::XXX);
}

#[test]
fn bytes_outside_ascii_fall_back() {
    assert_eq!(Currency::from_bytes(&[0xff, 0x53, 0x44]), Currency::XXX);
    assert_eq!(Currency::from_bytes(&[0x55, 0x80, 0x44]), Currency::XXX);
    assert_eq!(Currency::from_bytes(&[0x55, 0x53, 0xc3]), Currency::XXX);
    assert_eq!(Currency::from_bytes(&[0xc3, 0x9f, 0x50]), Currency::XXX);
    assert_eq!(Currency::from_bytes(&[0xe2, 0x82, 0xac]), Currency::XXX);
    assert_eq!(Currency::from_bytes(&[0xc3, 0x28, 0x44]), Currency::XXX);
}

#[test]
fn unknown_bytes_fall_back() {
    assert_eq!(Currency::from_bytes(b"ZZZ"), Currency::XXX);
    assert_eq!(Currency::from_bytes(&[0, 0, 0]), Currency::XXX);
    assert_eq!(Currency::from_bytes(b"XXX"), Currency::XXX);
}

#[test]
fn signed_bytes_parse_like_unsigned() {
    assert_eq!(Currency::from_signed_bytes(&[85, 83, 68]), Currency::USD);
    assert_eq!(Currency::from_signed_bytes(&[117, 115, 100, 0]), Currency::USD);
    assert_eq!(Currency::from([69i8, 85, 82, 0]), Currency::EUR);
    assert_eq!(Currency::from(&[69i8, 85, 82, 0]), Currency::EUR);
    assert_eq!(Currency::from(&[69i8, 85, 82, 0][..]), Currency::EUR);
    assert_eq!(Currency::from_signed_bytes(&[90, 90, 90]), Currency::XXX);
}

#[test]
fn negative_bytes_fall_back() {
    assert_eq!(Currency::from_signed_bytes(&[-1, 83, 68]), Currency::XXX);
    assert_eq!(Currency::from_signed_bytes(&[85, -128, 68]), Currency::XXX);
    assert_eq!(Currency::from_signed_bytes(&[85, 83, -61]), Currency::XXX);
    assert_eq!(Currency::from([-61i8, -97, 80]), Currency::XXX);
}

#[test]
fn text_is_measured_in_characters() {
    // Two characters in three bytes.
    assert_eq!("ßp".len(), 3);
    assert_eq!(Currency::from_alpha("ßp"), Currency::XXX);
    assert_eq!(Currency::from_alpha("é€"), Currency::XXX);
    // Three characters, none of them a letter of a code.
    assert_eq!(Currency::from_alpha("€€€"), Currency::XXX);
    assert_eq!(Currency::from_alpha("abé"), Currency::XXX);
    assert_eq!(Currency::from_alpha("usé"), Currency::XXX);
}

#[test]
fn text_outside_ascii_is_folded_by_unicode() {
    // The long s and the dotless i have ASCII capitals.
    assert_eq!(Currency::from_alpha("uſd"), Currency::USD);
    assert_eq!(Currency::from_alpha("ıdr"), Currency::IDR);
    // What follows the code may be anything.
    assert_eq!(Currency::from_alpha("usd€"), Currency::USD);
    assert_eq!(Currency::from_alpha("eur é"), Currency::EUR);
    assert_eq!(Currency::from("chf→"), Currency::CHF);
    // The sharp s folds to two letters.
    assert_eq!(Currency::from_alpha("ßpx"), Currency::SSP);
}

#[test]
fn prefix_is_read_as_it_stands() {
    assert_eq!(Currency::from_prefix("USD"), Currency::USD);
    assert_eq!(Currency::from_prefix("USDX"), Currency::USD);
    assert_eq!(Currency::from_prefix("USD€"), Currency::USD);
    assert_eq!(Currency::from_prefix("usd"), Currency::XXX);
    assert_eq!(Currency::from_prefix("Usd"), Currency::XXX);
    assert_eq!(Currency::from_prefix("US"), Currency::XXX);
    assert_eq!(Currency::from_prefix(""), Currency::XXX);
    assert_eq!(Currency::from_prefix("€€"), Currency::XXX);
    assert_eq!(Currency::from_prefix("€USD"), Currency::XXX);
}

#[test]
fn letters_must_match_exactly() {
    assert_eq!(Currency::from_letters('U', 'S', 'D'), Currency::USD);
    assert_eq!(Currency::from_letters('u', 's', 'd'), Currency::XXX);
    assert_eq!(Currency::from_letters('D', 'S', 'U'), Currency::XXX);
    assert_eq!(Currency::from_letters('X', 'X', 'X'), Currency::XXX);
    assert_eq!(Currency::from_letters('Z', 'Z', 'Z'), Currency::XXX);
    assert_eq!(Currency::from_letters('€', 'U', 'R'), Currency::XXX);
}

#[test]
fn ascii_letters_fold_to_upper_case() {
    assert_eq!(to_ascii_upper('a'), 'A');
    assert_eq!(to_ascii_upper('z'), 'Z');
    assert_eq!(to_ascii_upper('m'), 'M');
    assert_eq!(to_ascii_upper('A'), 'A');
    assert_eq!(to_ascii_upper('Z'), 'Z');
    assert_eq!(to_ascii_upper('`'), '`');
    assert_eq!(to_ascii_upper('{'), '{');
    assert_eq!(to_ascii_upper('0'), '0');
    assert_eq!(to_ascii_upper('é'), 'é');
    assert_eq!(to_ascii_upper('ſ'), 'ſ');
}

#[test]
fn currencies_compare_by_entry() {
    assert_eq!(Currency::USD, Currency::USD);
    assert_ne!(Currency::USD, Currency::EUR);
    let copy = Currency::CHF;
    let other = copy;
    assert_eq!(copy, other);
    assert_eq!(copy.clone(), other);
}
