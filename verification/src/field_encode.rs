//! Field-element encodings used by the relayer: byte strings and integers
//! are mapped to decimal-string field elements, the form the proving
//! circuit consumes.
//!
//! Values are specified over the UTF-8 byte encoding of the strings
//! involved: every string this module produces is a plain ASCII decimal
//! numeral, pinned exactly by [`dec_bytes`].

#![allow(non_snake_case)]

use vstd::prelude::*;
use vstd::utf8::{
    decode_utf8, encode_utf8, is_leading_byte_width_1, valid_utf8,
};

verus! {

/// ASCII code of the decimal digit `d`.
pub open spec fn digit_byte(d: nat) -> u8
    recommends
        d < 10,
{
    (0x30 + d) as u8
}

/// The canonical ASCII decimal numeral of `n`: no leading zeros, a
/// single `0` for zero.
pub open spec fn dec_bytes(n: nat) -> Seq<u8>
    decreases n,
{
    if n < 10 {
        seq![digit_byte(n)]
    } else {
        dec_bytes(n / 10) + seq![digit_byte(n % 10)]
    }
}

/// True of the ASCII code of a hexadecimal digit, either case.
pub open spec fn is_hex_digit(b: u8) -> bool {
    ||| 0x30 <= b <= 0x39
    ||| 0x61 <= b <= 0x66
    ||| 0x41 <= b <= 0x46
}

/// Numeric value of a hexadecimal digit's ASCII code.
pub open spec fn hex_digit_val(b: u8) -> nat
    recommends
        is_hex_digit(b),
{
    if 0x30 <= b <= 0x39 {
        (b - 0x30) as nat
    } else if 0x61 <= b <= 0x66 {
        (b - 0x61 + 10) as nat
    } else {
        (b - 0x41 + 10) as nat
    }
}

/// True when every byte of `s` is a hexadecimal digit.
pub open spec fn all_hex_digits(s: Seq<u8>) -> bool {
    forall|i: int| 0 <= i < s.len() ==> is_hex_digit(#[trigger] s[i])
}

/// The number whose big-endian base-16 digit string is `s`.
pub open spec fn hex_val(s: Seq<u8>) -> nat
    decreases s.len(),
{
    if s.len() == 0 {
        0
    } else {
        hex_val(s.drop_last()) * 16 + hex_digit_val(s.last())
    }
}

/// The number whose big-endian base-256 representation is `s`.
pub open spec fn be_bytes_val(s: Seq<u8>) -> nat
    decreases s.len(),
{
    if s.len() == 0 {
        0
    } else {
        (be_bytes_val(s.drop_last()) * 256 + s.last()) as nat
    }
}

/// An all-ASCII byte sequence is valid UTF-8.
pub proof fn lemma_ascii_bytes_valid_utf8(b: Seq<u8>)
    requires
        forall|i: int| 0 <= i < b.len() ==> #[trigger] b[i] < 0x80,
    ensures
        valid_utf8(b),
        encode_utf8(decode_utf8(b)) == b,
    decreases b.len(),
{
    if b.len() != 0 {
        assert(is_leading_byte_width_1(b[0]));
        let b0 = b[0];
        assert((b0 & 0x7f) == b0) by (bit_vector)
            requires
                b0 < 0x80,
        ;
        let rest = b.subrange(1, b.len() as int);
        lemma_ascii_bytes_valid_utf8(rest);
        assert(valid_utf8(b)) by {
            reveal_with_fuel(valid_utf8, 2);
        }
    }
    vstd::utf8::decode_utf8_encode_utf8(b);
}

/// Relies on `String::from_utf8`: it succeeds exactly on valid UTF-8 and
/// returns the string those bytes encode.
#[verifier::external_body]
pub(crate) fn string_from_utf8(v: Vec<u8>) -> (r: Option<String>)
    ensures
        r is Some <==> valid_utf8(v@),
        r matches Some(s) ==> s@ == decode_utf8(v@),
{
    match String::from_utf8(v) {
        Ok(s) => Some(s),
        Err(_) => None,
    }
}

/// Relies on `hex::decode`: it succeeds exactly on even-length
/// all-hex-digit input and yields one byte per digit pair.
#[verifier::external_body]
fn hex_decode(b: &[u8]) -> (r: Option<Vec<u8>>)
    ensures
        r is Some <==> (b@.len() % 2 == 0 && all_hex_digits(b@)),
        r matches Some(v) ==> {
            &&& v@.len() == b@.len() / 2
            &&& forall|i: int|
                0 <= i < v@.len() ==> #[trigger] v@[i] == hex_digit_val(b@[2 * i]) * 16
                    + hex_digit_val(b@[2 * i + 1])
        },
{
    match hex::decode(b) {
        Ok(v) => Some(v),
        Err(_) => None,
    }
}

/// Relies on `num_bigint::BigUint::from_bytes_be` and its decimal
/// `Display` form: the result is the canonical decimal numeral of the
/// big-endian value of the input bytes.
#[verifier::external_body]
pub(crate) fn biguint_decimal_from_bytes_be(b: &[u8]) -> (r: String)
    ensures
        encode_utf8(r@) == dec_bytes(be_bytes_val(b@)),
{
    let n = num_bigint::BigUint::from_bytes_be(b);
    n.to_string()
}

/// Relies on `num_bigint::BigUint::parse_bytes` with radix 16 and the
/// decimal `Display` form: an all-hex-digit input parses to its base-16
/// value; an input holding a byte that is no hex digit (nor the parser's
/// tolerated `+` or `_`) is rejected, as is an empty input.
#[verifier::external_body]
fn biguint_parse_hex_to_decimal(b: &[u8]) -> (r: Option<String>)
    ensures
        b@.len() > 0 && all_hex_digits(b@) ==> r is Some,
        r matches Some(s) ==> (b@.len() > 0 && all_hex_digits(b@) ==> encode_utf8(s@) == dec_bytes(
            hex_val(b@),
        )),
        b@.len() == 0 ==> r is None,
        (exists|i: int|
            0 <= i < b@.len() && !is_hex_digit(#[trigger] b@[i]) && b@[i] != 0x2b && b@[i] != 0x5f)
            ==> r is None,
{
    match num_bigint::BigUint::parse_bytes(b, 16) {
        Some(n) => Some(n.to_string()),
        None => None,
    }
}

/// The ASCII decimal digits of `x`, matching [`dec_bytes`].
pub fn u128_dec_digit_bytes(x: u128) -> (v: Vec<u8>)
    ensures
        v@ == dec_bytes(x as nat),
    decreases x,
{
    if x < 10 {
        let mut v: Vec<u8> = Vec::new();
        v.push(0x30 + x as u8);
        assert(v@ =~= seq![digit_byte(x as nat)]);
        v
    } else {
        let mut v = u128_dec_digit_bytes(x / 10);
        v.push(0x30 + (x % 10) as u8);
        assert(v@ =~= dec_bytes((x / 10) as nat) + seq![digit_byte((x % 10) as nat)]);
        v
    }
}

/// Every byte of a decimal numeral is an ASCII digit.
pub proof fn lemma_dec_bytes_ascii(n: nat)
    ensures
        forall|i: int| 0 <= i < dec_bytes(n).len() ==> 0x30 <= #[trigger] dec_bytes(n)[i] <= 0x39,
    decreases n,
{
    if n >= 10 {
        lemma_dec_bytes_ascii(n / 10);
        let prefix = dec_bytes(n / 10);
        assert forall|i: int| 0 <= i < dec_bytes(n).len() implies 0x30 <= #[trigger] dec_bytes(
            n,
        )[i] <= 0x39 by {
            if i < prefix.len() {
                assert(dec_bytes(n)[i] == prefix[i]);
            } else {
                assert(dec_bytes(n)[i] == digit_byte(n % 10));
            }
        }
    }
}

/// The decimal-string field element of `x`: its canonical numeral.
pub fn u128_to_decimal_string(x: u128) -> (r: String)
    ensures
        encode_utf8(r@) == dec_bytes(x as nat),
{
    let v = u128_dec_digit_bytes(x);
    proof {
        lemma_dec_bytes_ascii(x as nat);
        lemma_ascii_bytes_valid_utf8(v@);
    }
    match string_from_utf8(v) {
        Some(s) => s,
        None => vstd::pervasive::unreached(),
    }
}

/// The decimal-string field element of a `u64`.
pub fn u64_to_decimal_string(x: u64) -> (r: String)
    ensures
        encode_utf8(r@) == dec_bytes(x as nat),
{
    u128_to_decimal_string(x as u128)
}

/// The decimal-string field element of a `u32`.
pub fn u32_to_decimal_string(x: u32) -> (r: String)
    ensures
        encode_utf8(r@) == dec_bytes(x as nat),
{
    u128_to_decimal_string(x as u128)
}

/// The ASCII decimal numeral of a signed value: a `-` sign followed by
/// the numeral of the magnitude, or the plain numeral when non-negative.
pub open spec fn signed_dec_bytes(x: int) -> Seq<u8> {
    if x >= 0 {
        dec_bytes(x as nat)
    } else {
        seq![0x2du8] + dec_bytes((-x) as nat)
    }
}

/// The decimal-string form of an `i64`, sign included.
pub fn i64_to_decimal_string(x: i64) -> (r: String)
    ensures
        encode_utf8(r@) == signed_dec_bytes(x as int),
{
    if x >= 0 {
        u128_to_decimal_string(x as u128)
    } else {
        let magnitude: u128 = (-(x as i128)) as u128;
        let mut v: Vec<u8> = Vec::new();
        v.push(0x2d);
        let mut digits = u128_dec_digit_bytes(magnitude);
        v.append(&mut digits);
        proof {
            assert(v@ =~= seq![0x2du8] + dec_bytes(magnitude as nat));
            lemma_dec_bytes_ascii(magnitude as nat);
            assert forall|i: int| 0 <= i < v@.len() implies #[trigger] v@[i] < 0x80 by {
                if i > 0 {
                    assert(v@[i] == dec_bytes(magnitude as nat)[i - 1]);
                }
            }
            lemma_ascii_bytes_valid_utf8(v@);
        }
        match string_from_utf8(v) {
            Some(s) => s,
            None => vstd::pervasive::unreached(),
        }
    }
}

/// The decimal-string encoding keeps distinct values apart: two numbers
/// share a numeral only if they are equal, so two inputs map to the same
/// field element only when they denote the same value.
pub proof fn lemma_dec_bytes_injective(a: nat, b: nat)
    requires
        dec_bytes(a) == dec_bytes(b),
    ensures
        a == b,
    decreases a,
{
    lemma_dec_bytes_nonempty(a / 10);
    lemma_dec_bytes_nonempty(b / 10);
    if a < 10 && b < 10 {
        assert(dec_bytes(a)[0] == digit_byte(a));
        assert(dec_bytes(b)[0] == digit_byte(b));
    } else if a < 10 {
        assert(dec_bytes(a).len() == 1);
        assert(dec_bytes(b).len() == dec_bytes(b / 10).len() + 1);
    } else if b < 10 {
        assert(dec_bytes(b).len() == 1);
        assert(dec_bytes(a).len() == dec_bytes(a / 10).len() + 1);
    } else {
        assert(dec_bytes(a).last() == digit_byte(a % 10));
        assert(dec_bytes(b).last() == digit_byte(b % 10));
        assert(a % 10 == b % 10);
        assert(dec_bytes(a).drop_last() =~= dec_bytes(a / 10));
        assert(dec_bytes(b).drop_last() =~= dec_bytes(b / 10));
        lemma_dec_bytes_injective(a / 10, b / 10);
    }
}

/// `b` without a leading `0x`, if it carries one.
pub open spec fn strip_hex_prefix(b: Seq<u8>) -> Seq<u8> {
    if b.len() >= 2 && b[0] == 0x30 && b[1] == 0x78 {
        b.subrange(2, b.len() as int)
    } else {
        b
    }
}

/// A leading zero digit does not change the value of a hex numeral.
proof fn lemma_hex_val_leading_zero(s: Seq<u8>)
    ensures
        hex_val(seq![0x30u8] + s) == hex_val(s),
    decreases s.len(),
{
    if s.len() == 0 {
        assert(seq![0x30u8] + s =~= seq![0x30u8]);
        assert(seq![0x30u8].drop_last() =~= Seq::<u8>::empty());
        assert(hex_val(seq![0x30u8]) == hex_val(Seq::<u8>::empty()) * 16 + hex_digit_val(0x30));
    } else {
        assert((seq![0x30u8] + s).drop_last() =~= seq![0x30u8] + s.drop_last());
        assert((seq![0x30u8] + s).last() == s.last());
        lemma_hex_val_leading_zero(s.drop_last());
    }
}

/// The big-endian value of the bytes that a hex digit string decodes to,
/// pair by pair, is the value of the hex numeral itself.
proof fn lemma_hex_pairs_value(h: Seq<u8>, d: Seq<u8>)
    requires
        h.len() == 2 * d.len(),
        all_hex_digits(h),
        forall|i: int|
            0 <= i < d.len() ==> #[trigger] d[i] == hex_digit_val(h[2 * i]) * 16 + hex_digit_val(
                h[2 * i + 1],
            ),
    ensures
        be_bytes_val(d) == hex_val(h),
    decreases d.len(),
{
    if d.len() > 0 {
        let k = d.len() - 1;
        let h2 = h.drop_last();
        let h1 = h2.drop_last();
        let d1 = d.drop_last();
        assert(h1 =~= h.subrange(0, 2 * k));
        assert forall|i: int| 0 <= i < h1.len() implies is_hex_digit(#[trigger] h1[i]) by {
            assert(h1[i] == h[i]);
        }
        assert forall|i: int|
            0 <= i < d1.len() implies #[trigger] d1[i] == hex_digit_val(h1[2 * i]) * 16
            + hex_digit_val(h1[2 * i + 1]) by {
            assert(d1[i] == d[i]);
            assert(h1[2 * i] == h[2 * i]);
            assert(h1[2 * i + 1] == h[2 * i + 1]);
        }
        lemma_hex_pairs_value(h1, d1);
        let a = hex_digit_val(h[2 * k]);
        let b = hex_digit_val(h[2 * k + 1]);
        let v = hex_val(h1);
        assert(h2.last() == h[2 * k]);
        assert(h.last() == h[2 * k + 1]);
        assert(d.last() == a * 16 + b);
        assert(hex_val(h) == hex_val(h2) * 16 + b);
        assert(hex_val(h2) == v * 16 + a);
        assert(hex_val(h) == (v * 16 + a) * 16 + b);
        assert(be_bytes_val(d) == be_bytes_val(d1) * 256 + d.last());
        assert(be_bytes_val(d) == v * 256 + (a * 16 + b));
        assert((v * 16 + a) * 16 + b == v * 256 + (a * 16 + b)) by (nonlinear_arith);
    }
}

/// Decode a hex-prefixed (or bare) hex numeral to its decimal-string
/// field element. A numeral of odd length is accepted: it denotes the
/// same value as with a zero digit in front.
pub fn hexToField(hex_str: &str) -> (r: String)
    requires
        all_hex_digits(strip_hex_prefix(encode_utf8(hex_str@))),
    ensures
        encode_utf8(r@) == dec_bytes(hex_val(strip_hex_prefix(encode_utf8(hex_str@)))),
{
    let b = hex_str.as_bytes();
    let has_prefix = b.len() >= 2 && *vstd::slice::slice_index_get(b, 0) == 0x30
        && *vstd::slice::slice_index_get(b, 1) == 0x78;
    let stripped: &[u8] = if has_prefix {
        vstd::slice::slice_subrange(b, 2, b.len())
    } else {
        b
    };
    proof {
        assert(stripped@ =~= strip_hex_prefix(encode_utf8(hex_str@)));
    }
    let mut padded: Vec<u8> = Vec::new();
    if stripped.len() % 2 == 1 {
        padded.push(0x30);
    }
    padded.extend_from_slice(stripped);
    proof {
        if strip_hex_prefix(encode_utf8(hex_str@)).len() % 2 == 1 {
            assert(padded@ =~= seq![0x30u8] + stripped@);
            lemma_hex_val_leading_zero(stripped@);
        } else {
            assert(padded@ =~= stripped@);
        }
    }
    let decoded = match hex_decode(padded.as_slice()) {
        Some(v) => v,
        None => vstd::pervasive::unreached(),
    };
    proof {
        lemma_hex_pairs_value(padded@, decoded@);
    }
    biguint_decimal_from_bytes_be(decoded.as_slice())
}

/// The field element a string denotes, as decimal-numeral bytes: a
/// `0x`-prefixed string is read as a hexadecimal numeral, any other as
/// the big-endian integer of its byte sequence.
pub open spec fn string_to_field_bytes(s: Seq<char>) -> Seq<u8> {
    let b = encode_utf8(s);
    if b.len() >= 2 && b[0] == 0x30 && b[1] == 0x78 {
        dec_bytes(hex_val(strip_hex_prefix(b)))
    } else {
        dec_bytes(be_bytes_val(b))
    }
}

/// The field element the timestamp's dedicated encoding path yields: the
/// decimal digits of a non-negative timestamp reread as base-16; `0` for
/// a negative one, whose minus sign does not parse.
pub open spec fn timestamp_field_bytes(ts: i64) -> Seq<u8> {
    if ts >= 0 {
        dec_bytes(hex_val(dec_bytes(ts as nat)))
    } else {
        dec_bytes(0)
    }
}

/// A decimal numeral is never empty.
pub proof fn lemma_dec_bytes_nonempty(n: nat)
    ensures
        dec_bytes(n).len() >= 1,
{
}

/// Encode a string as a field element: a `0x`-prefixed string is read as
/// a hexadecimal numeral, any other as the big-endian integer of its
/// byte sequence. Either way the result is a decimal string.
pub fn stringToField(str: String) -> (r: String)
    requires
        ({
            let b = encode_utf8(str@);
            (b.len() >= 2 && b[0] == 0x30 && b[1] == 0x78) ==> all_hex_digits(strip_hex_prefix(b))
        }),
    ensures
        encode_utf8(r@) == string_to_field_bytes(str@),
{
    let b = str.as_str().as_bytes();
    if b.len() >= 2 && *vstd::slice::slice_index_get(b, 0) == 0x30 && *vstd::slice::slice_index_get(
        b,
        1,
    ) == 0x78 {
        hexToField(str.as_str())
    } else {
        proof {
            assert(strip_hex_prefix(b@) =~= b@);
        }
        biguint_decimal_from_bytes_be(b)
    }
}

/// The lowercase hex numeral of a byte string, two digits per byte.
pub open spec fn hex_bytes_of(s: Seq<u8>) -> Seq<u8>
    decreases s.len(),
{
    if s.len() == 0 {
        Seq::empty()
    } else {
        hex_bytes_of(s.drop_last()) + seq![
            hex_digit_byte((s.last() / 16) as nat),
            hex_digit_byte((s.last() % 16) as nat),
        ]
    }
}

/// ASCII code of the lowercase hex digit of value `d`.
pub open spec fn hex_digit_byte(d: nat) -> u8
    recommends
        d < 16,
{
    if d < 10 {
        (0x30 + d) as u8
    } else {
        (0x61 + (d - 10)) as u8
    }
}

/// A bare string and its hex-prefixed byte-equivalent denote the same
/// field value: the hex numeral spelling a byte string evaluates to the
/// big-endian integer of those bytes.
pub proof fn lemma_string_field_hex_equivalent(s: Seq<u8>)
    ensures
        all_hex_digits(hex_bytes_of(s)),
        hex_val(hex_bytes_of(s)) == be_bytes_val(s),
    decreases s.len(),
{
    if s.len() > 0 {
        lemma_string_field_hex_equivalent(s.drop_last());
        let h = hex_bytes_of(s);
        let prefix = hex_bytes_of(s.drop_last());
        let hi = hex_digit_byte((s.last() / 16) as nat);
        let lo = hex_digit_byte((s.last() % 16) as nat);
        assert(is_hex_digit(hi) && hex_digit_val(hi) == s.last() / 16);
        assert(is_hex_digit(lo) && hex_digit_val(lo) == s.last() % 16);
        assert forall|i: int| 0 <= i < h.len() implies is_hex_digit(#[trigger] h[i]) by {
            if i < h.len() - 2 {
                assert(h[i] == prefix[i]);
            } else if i == h.len() - 2 {
                assert(h[i] == hi);
            } else {
                assert(h[i] == lo);
            }
        }
        assert(h.last() == lo);
        assert(h.drop_last() =~= prefix + seq![hi]);
        assert((prefix + seq![hi]).last() == hi);
        assert((prefix + seq![hi]).drop_last() =~= prefix);
        let v = hex_val(prefix);
        let a = (s.last() / 16) as nat;
        let b = (s.last() % 16) as nat;
        assert(hex_val(h) == hex_val(h.drop_last()) * 16 + b);
        assert(hex_val(prefix + seq![hi]) == v * 16 + a);
        assert(hex_val(h) == (v * 16 + a) * 16 + b);
        assert((v * 16 + a) * 16 + b == v * 256 + (a * 16 + b)) by (nonlinear_arith);
        assert(a * 16 + b == s.last()) by (nonlinear_arith)
            requires
                a == s.last() / 16 && b == s.last() % 16,
        ;
    }
}

/// Read a digit string as a base-16 numeral and return its value as a
/// decimal string; a string that does not parse (a sign, or empty)
/// yields `0`. This is the timestamp's dedicated encoding path, distinct
/// from the address/string one.
pub fn parse_decimal_string_as_hex(input: &str) -> (r: String)
    ensures
        ({
            let b = encode_utf8(input@);
            &&& (b.len() > 0 && all_hex_digits(b)) ==> encode_utf8(r@) == dec_bytes(hex_val(b))
            &&& (b.len() == 0 || exists|i: int|
                0 <= i < b.len() && !is_hex_digit(#[trigger] b[i]) && b[i] != 0x2b && b[i] != 0x5f)
                ==> encode_utf8(r@) == dec_bytes(0)
        }),
{
    match biguint_parse_hex_to_decimal(input.as_bytes()) {
        Some(s) => s,
        None => u128_to_decimal_string(0),
    }
}

/// `x` divided by two `i` times.
pub open spec fn div_pow2(x: nat, i: nat) -> nat
    decreases i,
{
    if i == 0 {
        x
    } else {
        div_pow2(x, (i - 1) as nat) / 2
    }
}

/// The `i`-th bit, least significant first, of `x`.
pub open spec fn bit_at(x: nat, i: nat) -> nat {
    div_pow2(x, i) % 2
}

/// The little-endian binary decomposition of `leaf_index`, one digit
/// string per tree level: the result has exactly `levels` entries and
/// its `i`-th entry is the `i`-th bit of the index.
pub fn computePathIndices(leaf_index: u64, levels: u32) -> (r: Vec<String>)
    ensures
        r@.len() == levels,
        forall|i: int|
            0 <= i < levels ==> encode_utf8(#[trigger] r@[i]@) == dec_bytes(
                bit_at(leaf_index as nat, i as nat),
            ),
{
    let mut pathIndices: Vec<String> = Vec::new();
    let mut index = leaf_index;
    let mut i: u32 = 0;
    while i < levels
        invariant
            i <= levels,
            pathIndices@.len() == i,
            index as nat == div_pow2(leaf_index as nat, i as nat),
            forall|j: int|
                0 <= j < i ==> encode_utf8(#[trigger] pathIndices@[j]@) == dec_bytes(
                    bit_at(leaf_index as nat, j as nat),
                ),
        decreases levels - i,
    {
        let digit = if index % 2 == 0 {
            u128_to_decimal_string(0)
        } else {
            u128_to_decimal_string(1)
        };
        pathIndices.push(digit);
        index = index / 2;
        proof {
            assert(div_pow2(leaf_index as nat, (i + 1) as nat) == div_pow2(
                leaf_index as nat,
                i as nat,
            ) / 2);
        }
        i = i + 1;
    }
    pathIndices
}

} // verus!
