use rln_bridge::field::{fr_from_hex, fr_to_hex, normalize_width, FieldElement};
use rln_bridge::hexadecimal::HexError;

const MODULUS: &str = "0x30644e72e131a029b85045b68181585d2833e84879b9709143e1f593f0000001";
const MODULUS_PLUS_ONE: &str = "0x30644e72e131a029b85045b68181585d2833e84879b9709143e1f593f0000002";
const ALL_ONES: &str = "0xffffffffffffffffffffffffffffffffffffffffffffffffffffffffffffffff";
const ALL_ONES_REDUCED: &str =
    "0x0e0a77c19a07df2f666ea36f7879462e36fc76959f60cd29ac96341c4ffffffa";
const COUNTING: &str = "0x0102030405060708090a0b0c0d0e0f101112131415161718191a1b1c1d1e1f20";

fn one() -> FieldElement {
    FieldElement::from_be_bytes_mod_order(&[1])
}

#[test]
fn short_hex_is_padded_on_the_left() {
    let short = fr_from_hex("0x01").unwrap();
    let full = fr_from_hex(
        "0x0000000000000000000000000000000000000000000000000000000000000001",
    )
    .unwrap();
    assert_eq!(short, full);
    assert_eq!(short, one());
    let mut expected = [0u8; 32];
    expected[31] = 1;
    assert_eq!(short.to_be_bytes(), expected);
}

#[test]
fn wide_hex_keeps_its_low_order_32_bytes() {
    let wide = format!("0xab{}", &COUNTING[2..]);
    assert_eq!(wide.len(), 2 + 66);
    assert_eq!(fr_from_hex(&wide).unwrap(), fr_from_hex(COUNTING).unwrap());
    let wider = format!("0xffeeddccbbaa{}", &COUNTING[2..]);
    assert_eq!(fr_from_hex(&wider).unwrap(), fr_from_hex(COUNTING).unwrap());
    assert_eq!(fr_to_hex(&fr_from_hex(&wide).unwrap()), COUNTING);
}

#[test]
fn hex_round_trip_of_canonical_values() {
    for text in [
        "0x0000000000000000000000000000000000000000000000000000000000000000",
        "0x0000000000000000000000000000000000000000000000000000000000000001",
        COUNTING,
        ALL_ONES_REDUCED,
        "0x30644e72e131a029b85045b68181585d2833e84879b9709143e1f593f0000000",
    ] {
        let f = fr_from_hex(text).unwrap();
        assert_eq!(fr_to_hex(&f), text);
        assert_eq!(fr_from_hex(&fr_to_hex(&f)).unwrap(), f);
    }
}

#[test]
fn one_is_spelled_big_endian() {
    assert_eq!(
        fr_to_hex(&one()),
        "0x0000000000000000000000000000000000000000000000000000000000000001"
    );
    let f = FieldElement::from_be_bytes_mod_order(&[0xab, 0xcd]);
    assert_eq!(
        fr_to_hex(&f),
        "0x000000000000000000000000000000000000000000000000000000000000abcd"
    );
}

#[test]
fn hex_out_of_range_is_reduced() {
    assert!(fr_from_hex(MODULUS).unwrap().is_zero());
    assert_eq!(fr_from_hex(MODULUS_PLUS_ONE).unwrap(), one());
    assert_eq!(fr_to_hex(&fr_from_hex(ALL_ONES).unwrap()), ALL_ONES_REDUCED);
}

#[test]
fn prefix_is_optional() {
    assert_eq!(fr_from_hex("01").unwrap(), one());
    assert_eq!(fr_from_hex(&COUNTING[2..]).unwrap(), fr_from_hex(COUNTING).unwrap());
}

#[test]
fn only_one_prefix_is_stripped() {
    assert_eq!(
        fr_from_hex("0x0x01"),
        Err(HexError::InvalidCharacter { c: 'x', index: 1 })
    );
    assert_eq!(
        fr_from_hex("0X01"),
        Err(HexError::InvalidCharacter { c: 'X', index: 1 })
    );
}

#[test]
fn digits_of_either_case_are_read() {
    assert_eq!(
        fr_to_hex(&fr_from_hex("0xABCDEFabcdef").unwrap()),
        "0x0000000000000000000000000000000000000000000000000000abcdefabcdef"
    );
}

#[test]
fn empty_hex_is_zero() {
    assert!(fr_from_hex("").unwrap().is_zero());
    assert!(fr_from_hex("0x").unwrap().is_zero());
}

#[test]
fn odd_number_of_digits_is_refused() {
    assert_eq!(fr_from_hex("0x123"), Err(HexError::OddLength));
    assert_eq!(fr_from_hex("1"), Err(HexError::OddLength));
}

#[test]
fn odd_length_is_found_before_a_bad_digit() {
    assert_eq!(fr_from_hex("xyz"), Err(HexError::OddLength));
}

#[test]
fn first_bad_digit_is_reported() {
    assert_eq!(
        fr_from_hex("0x0g"),
        Err(HexError::InvalidCharacter { c: 'g', index: 1 })
    );
    assert_eq!(
        fr_from_hex("0x12zz34yy"),
        Err(HexError::InvalidCharacter { c: 'z', index: 2 })
    );
    assert_eq!(
        fr_from_hex(" 1"),
        Err(HexError::InvalidCharacter { c: ' ', index: 0 })
    );
}

#[test]
fn bad_digit_outside_ascii_is_reported_by_its_first_byte() {
    assert_eq!(
        fr_from_hex("\u{e9}"),
        Err(HexError::InvalidCharacter { c: '\u{c3}', index: 0 })
    );
}

#[test]
fn zero_is_told_from_other_elements() {
    assert!(FieldElement::from_be_bytes_mod_order(&[]).is_zero());
    assert!(FieldElement::from_be_bytes_mod_order(&[0, 0, 0]).is_zero());
    assert!(!one().is_zero());
    assert!(!fr_from_hex("0x0100000000000000000000000000000000000000000000000000000000000000")
        .unwrap()
        .is_zero());
}

#[test]
fn bytes_are_reduced_by_the_modulus() {
    let f = FieldElement::from_be_bytes_mod_order(&[0xff; 32]);
    assert_eq!(fr_to_hex(&f), ALL_ONES_REDUCED);
    let long = FieldElement::from_be_bytes_mod_order(&[0xff; 33]);
    assert_ne!(long, f);
}

#[test]
fn width_is_normalized_to_32_bytes() {
    assert_eq!(normalize_width(&[]), vec![0u8; 32]);
    let mut padded = vec![0u8; 30];
    padded.extend_from_slice(&[7, 9]);
    assert_eq!(normalize_width(&[7, 9]), padded);
    let exact: Vec<u8> = (1..=32).collect();
    assert_eq!(normalize_width(&exact), exact);
    let long: Vec<u8> = (0..=40).collect();
    assert_eq!(normalize_width(&long), (9..=40).collect::<Vec<u8>>());
}
