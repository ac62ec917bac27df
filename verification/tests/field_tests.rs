//! Field-element encoding behavior: hex and string decoding, the
//! timestamp's base-16 reread, and path-index decomposition.

use cross_chain_token_bridge::field_encode::{
    computePathIndices, hexToField, i64_to_decimal_string, parse_decimal_string_as_hex,
    stringToField, u128_to_decimal_string, u32_to_decimal_string, u64_to_decimal_string,
};

#[test]
fn hex_to_field_zero_forms_agree() {
    assert_eq!(hexToField("0x00"), "0");
    assert_eq!(hexToField("0x0"), "0");
}

#[test]
fn hex_to_field_exact_values() {
    assert_eq!(hexToField("0xff"), "255");
    assert_eq!(hexToField("0xabc"), "2748");
    assert_eq!(hexToField("ff"), "255");
    assert_eq!(hexToField("0x4142"), "16706");
}

#[test]
fn string_to_field_hex_and_raw_agree() {
    // A bare ASCII string and its hex-prefixed byte-equivalent denote
    // the same field value.
    assert_eq!(stringToField("AB".to_string()), "16706");
    assert_eq!(stringToField("0x4142".to_string()), "16706");
    assert_eq!(stringToField("ab".to_string()), "24930");
    assert_eq!(stringToField("0x6162".to_string()), "24930");
}

#[test]
fn string_to_field_raw_ascii() {
    assert_eq!(stringToField("abc".to_string()), "6382179");
    assert_eq!(stringToField(String::new()), "0");
}

#[test]
fn parse_decimal_as_hex_rereads_digits_in_base_16() {
    assert_eq!(parse_decimal_string_as_hex("1750482928"), "100131154216");
    assert_eq!(parse_decimal_string_as_hex("10"), "16");
    assert_eq!(parse_decimal_string_as_hex("0"), "0");
}

#[test]
fn parse_decimal_as_hex_rejects_sign_and_empty() {
    assert_eq!(parse_decimal_string_as_hex("-5"), "0");
    assert_eq!(parse_decimal_string_as_hex(""), "0");
}

#[test]
fn path_indices_are_little_endian_bits() {
    let bits = computePathIndices(5, 4);
    assert_eq!(bits, vec!["1", "0", "1", "0"]);
    let bits = computePathIndices(6, 26);
    assert_eq!(bits.len(), 26);
    assert_eq!(&bits[0..4], &["0", "1", "1", "0"]);
    for b in &bits[3..] {
        assert_eq!(b, "0");
    }
}

#[test]
fn decimal_strings_of_integers() {
    assert_eq!(u128_to_decimal_string(0), "0");
    assert_eq!(u128_to_decimal_string(u128::MAX), u128::MAX.to_string());
    assert_eq!(u64_to_decimal_string(10000), "10000");
    assert_eq!(u32_to_decimal_string(31337), "31337");
    assert_eq!(i64_to_decimal_string(-42), "-42");
    assert_eq!(i64_to_decimal_string(i64::MIN), i64::MIN.to_string());
}
