//! Numbers as text, and numbers of other widths.
//!
//! Integers are read here, and the grammar of a decimal numeral is checked
//! here. The value of a numeral that passes, and the conversion between
//! binary32 and binary64, are delegated to `rustc_apfloat`.

use crate::scalar::{Scalar, INFINITY_BITS, SIGN_BIT};
use rustc_apfloat::ieee::{Double, Single};
use rustc_apfloat::{Float, FloatConvert, Round};
use vstd::prelude::*;

verus! {

/// The greatest length of a number that is read, in bytes. `rustc_apfloat`
/// counts in 32 bits with a sign the binary digits of a number's decimal
/// digits, those of its power of five, and the precision at which it works,
/// which it doubles until the value is settled: fewer than seven binary
/// digits for each byte of the text, and some thousands more. For a text of
/// this length all of them stay below a tenth of what 32 bits hold.
pub const MAX_NUMBER_LEN: usize = 0x100_0000;

/// The bits of the NaN that the text `nan` denotes.
pub const NAN_BITS: u64 = 0x7FF8_0000_0000_0000;

/// The bits of the binary64 value that a decimal number with an optional
/// sign denotes, rounded to nearest, a tie to the even neighbour.
pub uninterp spec fn numeral_bits(text: Seq<u8>) -> u64;

/// The bits of the binary64 value equal to the binary32 value with the
/// given bits.
pub uninterp spec fn widened_bits(single: u32) -> u64;

/// The bits of the binary32 value nearest to the binary64 value with the
/// given bits.
pub uninterp spec fn narrowed_bits(double: u64) -> u32;

/// `Float::from_str_r` of `rustc_apfloat` for `Double`, rounding to
/// nearest: the value of the text read as a numeral. The result depends on
/// the text alone. Only a decimal number with an optional sign is handed to
/// it, and none of more than `MAX_NUMBER_LEN` bytes: `rustc_apfloat` reads
/// other forms too, hexadecimal ones among them, and may panic on those and
/// on numbers too long for its counters. For a decimal number it reports no
/// error: its errors are for a text without a digit, with a second point,
/// or with a character that such a number does not have. Such a text is
/// ASCII, so `std::str::from_utf8` takes it.
#[verifier::external_body]
fn apfloat_parse(text: &[u8]) -> (r: Option<u64>)
    requires
        spec_is_number(spec_unsigned_part(text@)),
        text@.len() <= MAX_NUMBER_LEN,
    ensures
        r == Some(numeral_bits(text@)),
{
    match std::str::from_utf8(text) {
        Ok(s) => match Double::from_str_r(s, Round::NearestTiesToEven) {
            Ok(v) => Some(v.value.to_bits() as u64),
            Err(_) => None,
        },
        Err(_) => None,
    }
}

/// `FloatConvert::convert` of `rustc_apfloat` from `Single` to `Double`.
/// The result depends on the bits alone.
#[verifier::external_body]
fn apfloat_widen(single: u32) -> (r: u64)
    ensures
        r == widened_bits(single),
{
    let mut lost = false;
    let wide: Double = Single::from_bits(single as u128).convert(&mut lost).value;
    wide.to_bits() as u64
}

/// `FloatConvert::convert` of `rustc_apfloat` from `Double` to `Single`,
/// rounding to nearest. The result depends on the bits alone.
#[verifier::external_body]
fn apfloat_narrow(double: u64) -> (r: u32)
    ensures
        r == narrowed_bits(double),
{
    let mut lost = false;
    let narrow: Single = Double::from_bits(double as u128).convert(&mut lost).value;
    narrow.to_bits() as u32
}

/// Whether the byte is an ASCII digit.
pub open spec fn spec_is_digit(b: u8) -> bool {
    48 <= b <= 57
}

/// Whether every byte is an ASCII digit.
pub open spec fn spec_all_digits(digits: Seq<u8>) -> bool {
    forall|i: int| 0 <= i < digits.len() ==> spec_is_digit(#[trigger] digits[i])
}

/// The number that a sequence of decimal digits denotes; 0 for none.
pub open spec fn spec_digits_value(digits: Seq<u8>) -> int
    decreases digits.len(),
{
    if digits.len() == 0 {
        0
    } else {
        spec_digits_value(digits.drop_last()) * 10 + (digits.last() - 48)
    }
}

/// Whether the text begins with a sign, `+` or `-`.
pub open spec fn spec_is_signed(text: Seq<u8>) -> bool {
    text.len() > 0 && (text[0] == 45 || text[0] == 43)
}

/// The text without its sign.
pub open spec fn spec_unsigned_part(text: Seq<u8>) -> Seq<u8> {
    if spec_is_signed(text) {
        text.subrange(1, text.len() as int)
    } else {
        text
    }
}

/// The integer that a text denotes: an optional sign `+` or `-`, then one
/// decimal digit or more, and nothing else; `None` where the text has
/// another form or the integer does not fit in 64 bits.
pub open spec fn spec_parse_integer(text: Seq<u8>) -> Option<i64> {
    let digits = spec_unsigned_part(text);
    let magnitude = spec_digits_value(digits);
    let value = if spec_is_signed(text) && text[0] == 45 {
        -magnitude
    } else {
        magnitude
    };
    if digits.len() == 0 || !spec_all_digits(digits) || value < i64::MIN || value > i64::MAX {
        None
    } else {
        Some(value as i64)
    }
}

/// A longer run of digits denotes no smaller number.
proof fn lemma_digits_value_grows(digits: Seq<u8>, n: int)
    requires
        0 <= n <= digits.len(),
        spec_all_digits(digits),
    ensures
        0 <= spec_digits_value(digits.subrange(0, n)) <= spec_digits_value(digits),
    decreases digits.len() - n,
{
    if n < digits.len() {
        lemma_digits_value_grows(digits, n + 1);
        let longer = digits.subrange(0, n + 1);
        assert(longer.drop_last() =~= digits.subrange(0, n));
        assert(spec_is_digit(digits[n]));
        lemma_digits_value_nonnegative(digits.subrange(0, n));
    } else {
        assert(digits.subrange(0, n) =~= digits);
        lemma_digits_value_nonnegative(digits);
    }
}

proof fn lemma_digits_value_nonnegative(digits: Seq<u8>)
    requires
        spec_all_digits(digits),
    ensures
        0 <= spec_digits_value(digits),
    decreases digits.len(),
{
    if digits.len() > 0 {
        assert(spec_is_digit(digits[digits.len() - 1]));
        lemma_digits_value_nonnegative(digits.drop_last());
    }
}

/// Reads a decimal integer with an optional sign.
pub fn parse_integer(text: &[u8]) -> (r: Option<i64>)
    ensures
        r == spec_parse_integer(text@),
{
    let n = text.len();
    let signed = n > 0 && (text[0] == 45 || text[0] == 43);
    let negative = signed && text[0] == 45;
    let start: usize = if signed {
        1
    } else {
        0
    };
    let ghost digits = text@.subrange(start as int, n as int);
    assert(digits =~= spec_unsigned_part(text@));
    if start == n {
        return None;
    }
    let limit: i128 = 0x8000_0000_0000_0000;
    let mut value: i128 = 0;
    let mut i: usize = start;
    while i < n
        invariant
            start <= i <= n,
            n == text@.len(),
            digits == text@.subrange(start as int, n as int),
            digits == spec_unsigned_part(text@),
            limit == 0x8000_0000_0000_0000,
            spec_all_digits(digits.subrange(0, i - start)),
            value == spec_digits_value(digits.subrange(0, i - start)),
            0 <= value <= limit,
        decreases n - i,
    {
        let b = text[i];
        let ghost seen = digits.subrange(0, i - start + 1);
        proof {
            assert(seen.drop_last() =~= digits.subrange(0, i - start));
            assert(seen.last() == b);
        }
        if b < 48 || b > 57 {
            assert(!spec_is_digit(digits[i - start]));
            return None;
        }
        value = value * 10 + (b - 48) as i128;
        if value > limit {
            proof {
                if spec_all_digits(digits) {
                    lemma_digits_value_grows(digits, i - start + 1);
                }
            }
            return None;
        }
        proof {
            assert forall|k: int| 0 <= k < seen.len() implies spec_is_digit(#[trigger] seen[k]) by {
                if k < seen.len() - 1 {
                    assert(digits.subrange(0, i - start)[k] == seen[k]);
                }
            }
        }
        i += 1;
    }
    assert(digits.subrange(0, n - start) =~= digits);
    if negative {
        Some((0 - value) as i64)
    } else if value == limit {
        None
    } else {
        Some(value as i64)
    }
}

/// The letter in lower case; any other byte as it is.
pub open spec fn spec_lower(b: u8) -> u8 {
    if 65 <= b <= 90 {
        (b + 32) as u8
    } else {
        b
    }
}

/// Whether the text is the given word, in upper or lower case.
pub open spec fn spec_is_word(text: Seq<u8>, word: Seq<u8>) -> bool {
    &&& text.len() == word.len()
    &&& forall|i: int| 0 <= i < text.len() ==> spec_lower(#[trigger] text[i]) == word[i]
}

/// The word `inf`.
pub open spec fn spec_inf() -> Seq<u8> {
    seq![105u8, 110u8, 102u8]
}

/// The word `infinity`.
pub open spec fn spec_infinity() -> Seq<u8> {
    seq![105u8, 110u8, 102u8, 105u8, 110u8, 105u8, 116u8, 121u8]
}

/// The word `nan`.
pub open spec fn spec_nan() -> Seq<u8> {
    seq![110u8, 97u8, 110u8]
}

/// The place of the first byte at or after `from` that is no digit.
pub open spec fn spec_digits_end(text: Seq<u8>, from: int) -> int
    decreases text.len() - from,
{
    if 0 <= from < text.len() && spec_is_digit(text[from]) {
        spec_digits_end(text, from + 1)
    } else {
        from
    }
}

/// Whether the text is an unsigned decimal number: digits with at most one
/// point among them, at least one digit in all, and then at most one
/// exponent, which is the letter `e`, an optional sign and at least one
/// digit.
pub open spec fn spec_is_number(text: Seq<u8>) -> bool {
    let whole_end = spec_digits_end(text, 0);
    let pointed = whole_end < text.len() && text[whole_end] == 46;
    let mantissa_end = if pointed {
        spec_digits_end(text, whole_end + 1)
    } else {
        whole_end
    };
    let digits = if pointed {
        mantissa_end - 1
    } else {
        mantissa_end
    };
    let exponent_start = if mantissa_end + 1 < text.len() && (text[mantissa_end + 1] == 43
        || text[mantissa_end + 1] == 45) {
        mantissa_end + 2
    } else {
        mantissa_end + 1
    };
    &&& digits >= 1
    &&& mantissa_end == text.len() || {
        &&& spec_lower(text[mantissa_end]) == 101
        &&& spec_digits_end(text, exponent_start) > exponent_start
        &&& spec_digits_end(text, exponent_start) == text.len()
    }
}

/// The scalar with the magnitude `bits`, negative if asked.
pub open spec fn spec_signed(bits: u64, negative: bool) -> Scalar {
    if negative {
        Scalar { bits: (bits + SIGN_BIT) as u64 }
    } else {
        Scalar { bits }
    }
}

/// The number that a text denotes: after an optional sign, one of the
/// words `inf`, `infinity` and `nan` in any case, or a decimal number with
/// an optional exponent. `None` for any other text, white space included,
/// and for a decimal number of more than `MAX_NUMBER_LEN` bytes, which is
/// not read.
pub open spec fn spec_parse_scalar(text: Seq<u8>) -> Option<Scalar> {
    let body = spec_unsigned_part(text);
    let negative = spec_is_signed(text) && text[0] == 45;
    if spec_is_word(body, spec_inf()) || spec_is_word(body, spec_infinity()) {
        Some(spec_signed(INFINITY_BITS, negative))
    } else if spec_is_word(body, spec_nan()) {
        Some(spec_signed(NAN_BITS, negative))
    } else if spec_is_number(body) && text.len() <= MAX_NUMBER_LEN {
        Some(Scalar { bits: numeral_bits(text) })
    } else {
        None
    }
}

/// The number that a text denotes; zero for a text that denotes none.
pub open spec fn spec_number(text: Seq<u8>) -> Scalar {
    match spec_parse_scalar(text) {
        Some(x) => x,
        None => Scalar::spec_zero(),
    }
}

/// Each text as a number; zero for a text that denotes none.
pub open spec fn spec_parse_floats(items: Seq<Seq<u8>>) -> Seq<Scalar> {
    Seq::new(items.len(), |i: int| spec_number(items[i]))
}

fn lower(b: u8) -> (r: u8)
    ensures
        r == spec_lower(b),
{
    if 65 <= b && b <= 90 {
        b + 32
    } else {
        b
    }
}

fn is_word(text: &[u8], from: usize, word: &[u8]) -> (r: bool)
    requires
        from <= text.len(),
    ensures
        r == spec_is_word(text@.subrange(from as int, text@.len() as int), word@),
{
    let ghost body = text@.subrange(from as int, text@.len() as int);
    if text.len() - from != word.len() {
        return false;
    }
    let mut i: usize = 0;
    while i < word.len()
        invariant
            i <= word.len(),
            from <= text.len(),
            text.len() - from == word.len(),
            body == text@.subrange(from as int, text@.len() as int),
            forall|k: int| 0 <= k < i ==> spec_lower(#[trigger] body[k]) == word@[k],
        decreases word.len() - i,
    {
        if lower(text[from + i]) != word[i] {
            assert(spec_lower(body[i as int]) != word@[i as int]);
            return false;
        }
        i += 1;
    }
    true
}

fn digits_end(text: &[u8], base: usize, from: usize) -> (r: usize)
    requires
        base <= from <= text.len(),
    ensures
        from <= r <= text.len(),
        r - base == spec_digits_end(text@.subrange(base as int, text@.len() as int), from - base),
{
    let ghost body = text@.subrange(base as int, text@.len() as int);
    let mut i: usize = from;
    while i < text.len() && 48 <= text[i] && text[i] <= 57
        invariant
            base <= from <= i <= text.len(),
            body == text@.subrange(base as int, text@.len() as int),
            spec_digits_end(body, from - base) == spec_digits_end(body, i - base),
        decreases text.len() - i,
    {
        assert(body[i - base] == text@[i as int]);
        i += 1;
    }
    proof {
        if i < text.len() {
            assert(body[i - base] == text@[i as int]);
        }
    }
    i
}

fn is_number(text: &[u8], base: usize) -> (r: bool)
    requires
        base <= text.len(),
    ensures
        r == spec_is_number(text@.subrange(base as int, text@.len() as int)),
{
    let ghost body = text@.subrange(base as int, text@.len() as int);
    let n = text.len();
    let whole_end = digits_end(text, base, base);
    let pointed = whole_end < n && text[whole_end] == 46;
    proof {
        if whole_end < n {
            assert(body[whole_end - base] == text@[whole_end as int]);
        }
    }
    let mantissa_end = if pointed {
        digits_end(text, base, whole_end + 1)
    } else {
        whole_end
    };
    let digits = if pointed {
        mantissa_end - base - 1
    } else {
        mantissa_end - base
    };
    if digits < 1 {
        return false;
    }
    if mantissa_end == n {
        return true;
    }
    assert(body[mantissa_end - base] == text@[mantissa_end as int]);
    if lower(text[mantissa_end]) != 101 {
        return false;
    }
    let signed = mantissa_end + 1 < n && (text[mantissa_end + 1] == 43 || text[mantissa_end + 1]
        == 45);
    proof {
        if mantissa_end + 1 < n {
            assert(body[mantissa_end + 1 - base] == text@[mantissa_end + 1]);
        }
    }
    let exponent_start = if signed {
        mantissa_end + 2
    } else {
        mantissa_end + 1
    };
    let exponent_end = digits_end(text, base, exponent_start);
    exponent_end > exponent_start && exponent_end == n
}

/// Reads a number: `inf`, `infinity` or `nan` in any case, or a decimal
/// number with an optional exponent, each with an optional sign. A decimal
/// number of more than `MAX_NUMBER_LEN` bytes is not read.
pub fn parse_scalar(text: &[u8]) -> (r: Option<Scalar>)
    ensures
        r == spec_parse_scalar(text@),
{
    let n = text.len();
    let signed = n > 0 && (text[0] == 45 || text[0] == 43);
    let negative = signed && text[0] == 45;
    let base: usize = if signed {
        1
    } else {
        0
    };
    assert(text@.subrange(base as int, n as int) =~= spec_unsigned_part(text@));
    let inf: [u8; 3] = [105, 110, 102];
    let infinity: [u8; 8] = [105, 110, 102, 105, 110, 105, 116, 121];
    let nan: [u8; 3] = [110, 97, 110];
    assert(inf@ =~= spec_inf());
    assert(infinity@ =~= spec_infinity());
    assert(nan@ =~= spec_nan());
    if is_word(text, base, inf.as_slice()) || is_word(text, base, infinity.as_slice()) {
        Some(signed_scalar(INFINITY_BITS, negative))
    } else if is_word(text, base, nan.as_slice()) {
        Some(signed_scalar(NAN_BITS, negative))
    } else if is_number(text, base) && n <= MAX_NUMBER_LEN {
        match apfloat_parse(text) {
            Some(bits) => Some(Scalar::from_bits(bits)),
            None => None,
        }
    } else {
        None
    }
}

/// Reads a number; a text that denotes none counts as zero.
pub fn number(text: &[u8]) -> (x: Scalar)
    ensures
        x == spec_number(text@),
{
    match parse_scalar(text) {
        Some(x) => x,
        None => Scalar::zero(),
    }
}

fn signed_scalar(bits: u64, negative: bool) -> (r: Scalar)
    requires
        bits < SIGN_BIT,
    ensures
        r == spec_signed(bits, negative),
{
    if negative {
        Scalar::from_bits(bits + SIGN_BIT)
    } else {
        Scalar::from_bits(bits)
    }
}

/// The binary64 value equal to the binary32 value with the given bits.
pub fn widen(single: u32) -> (r: Scalar)
    ensures
        r.bits == widened_bits(single),
{
    Scalar::from_bits(apfloat_widen(single))
}

/// The bits of the binary32 value nearest to the scalar.
pub fn narrow(x: Scalar) -> (r: u32)
    ensures
        r == narrowed_bits(x.bits),
{
    apfloat_narrow(x.bits)
}

} // verus!
