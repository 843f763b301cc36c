//! Moving an `i128` in and out of a JavaScript `bigint` as N-API's sign bit
//! and little-endian 64 bit words.

use vstd::prelude::*;

verus! {

/// 2^64.
pub open spec fn word() -> int {
    0x1_0000_0000_0000_0000
}

/// The magnitude of `value`.
pub open spec fn magnitude(value: int) -> int {
    if value < 0 {
        -value
    } else {
        value
    }
}

/// The words N-API is given for a `bigint`: a sign bit (`1` for negative)
/// and the two little-endian 64 bit words of the magnitude.
#[derive(Debug, Copy, Clone, PartialEq, Eq, Structural)]
pub struct BigintWords {
    pub sign: i32,
    pub low: u64,
    pub high: u64,
}

/// Splits an `i128` into the sign bit and the words of its magnitude, as
/// `napi_create_bigint_words` takes them.
pub fn create_bigint_words(value: i128) -> (w: BigintWords)
    ensures
        w.sign == (if value < 0 {
            1i32
        } else {
            0i32
        }),
        w.low + w.high * word() == magnitude(value as int),
{
    let (sign, m): (i32, u128) = if value == i128::MIN {
        (1, 0x8000_0000_0000_0000_0000_0000_0000_0000u128)
    } else if value < 0 {
        (1, (0 - value) as u128)
    } else {
        (0, value as u128)
    };
    let low = (m % 0x1_0000_0000_0000_0000u128) as u64;
    let high = (m / 0x1_0000_0000_0000_0000u128) as u64;
    BigintWords { sign, low, high }
}

/// The `i128` whose two's complement bits are the words `low` and `high`.
pub open spec fn words_value(low: u64, high: u64) -> int {
    if high < 0x8000_0000_0000_0000 {
        high * word() + low
    } else {
        high * word() + low - word() * word()
    }
}

/// Reads back an `i128` from what `napi_get_value_bigint_words` gave: the
/// sign bit, the number of words the value needs, and the two words read.
///
/// The words are taken as the `i128` they spell; the sign bit only serves to
/// refuse a non-negative value that does not fit. A value that needs more
/// than two words, or a non-negative one whose top bit is set, does not fit
/// in an `i128`: the caller must not pass either.
pub fn get_value_bigint_words(sign: i32, word_count: usize, low: u64, high: u64) -> (v: i128)
    requires
        word_count <= 2,
        !(sign == 0 && high >= 0x8000_0000_0000_0000),
    ensures
        v == words_value(low, high),
{
    if high < 0x8000_0000_0000_0000 {
        (high as i128) * 0x1_0000_0000_0000_0000i128 + (low as i128)
    } else {
        ((high as i128) - 0x1_0000_0000_0000_0000i128) * 0x1_0000_0000_0000_0000i128 + (low as i128)
    }
}

/// Whether `napi_get_value_bigint_words`' answer fits in an `i128`.
pub fn bigint_fits(sign: i32, word_count: usize, high: u64) -> (r: bool)
    ensures
        r == (word_count <= 2 && !(sign == 0 && high >= 0x8000_0000_0000_0000)),
{
    word_count <= 2 && !(sign == 0 && high >= 0x8000_0000_0000_0000)
}

/// Words made from an `i128` can always be read back (they fit), and a
/// non-negative `i128` (and `i128::MIN`) comes back unchanged; any other
/// negative value comes back as its magnitude, since reading does not apply
/// the sign bit.
pub proof fn bigint_words_roundtrip(value: i128, low: u64, high: u64)
    requires
        low + high * word() == magnitude(value as int),
    ensures
        !(value >= 0 && high >= 0x8000_0000_0000_0000),
        value >= 0 ==> words_value(low, high) == value,
        value == i128::MIN ==> words_value(low, high) == value,
        i128::MIN < value < 0 ==> words_value(low, high) == -value,
{
    let m = magnitude(value as int);
    assert(0 <= m <= 0x8000_0000_0000_0000_0000_0000_0000_0000);
    if high >= 0x8000_0000_0000_0000 {
        assert(high * word() >= 0x8000_0000_0000_0000 * word()) by (nonlinear_arith)
            requires
                high >= 0x8000_0000_0000_0000,
        ;
        assert(m == 0x8000_0000_0000_0000_0000_0000_0000_0000);
        assert(high == 0x8000_0000_0000_0000) by (nonlinear_arith)
            requires
                low + high * 0x1_0000_0000_0000_0000 == 0x8000_0000_0000_0000_0000_0000_0000_0000,
                low < 0x1_0000_0000_0000_0000,
                high >= 0x8000_0000_0000_0000,
        ;
    }
}

} // verus!
