//! Brightness quantization and the character ramp.
//!
//! Brightness is carried as a fixed-point integer: a brightness of 1.0 is
//! represented by `LUM_SCALE`. Quantization floors `brightness * 12` and
//! clamps the result into the index range of the 14-entry ramp.

use vstd::prelude::*;

verus! {

/// Fixed-point scale for brightness: a brightness of 1.0 is `LUM_SCALE`.
pub const LUM_SCALE: i64 = 256;

/// Number of characters in the brightness ramp.
pub const RAMP_LEN: usize = 14;

/// The brightness ramp, ordered from faintest to brightest.
pub open spec fn ramp_spec(i: int) -> char {
    if i == 0 {
        '.'
    } else if i == 1 {
        ','
    } else if i == 2 {
        '-'
    } else if i == 3 {
        '~'
    } else if i == 4 {
        ':'
    } else if i == 5 {
        ';'
    } else if i == 6 {
        '='
    } else if i == 7 {
        '!'
    } else if i == 8 {
        '*'
    } else if i == 9 {
        '#'
    } else if i == 10 {
        '$'
    } else if i == 11 {
        '@'
    } else if i == 12 {
        '%'
    } else {
        '&'
    }
}

/// The ramp character at index `i`, faintest (`.`) to brightest (`&`).
pub fn ramp_char(i: usize) -> (c: char)
    requires
        i < RAMP_LEN,
    ensures
        c == ramp_spec(i as int),
{
    match i {
        0 => '.',
        1 => ',',
        2 => '-',
        3 => '~',
        4 => ':',
        5 => ';',
        6 => '=',
        7 => '!',
        8 => '*',
        9 => '#',
        10 => '$',
        11 => '@',
        12 => '%',
        _ => '&',
    }
}

/// The ramp bucket for a fixed-point brightness: floor of `brightness * 12`,
/// clamped to `[0, RAMP_LEN - 1]`.
pub open spec fn lum_index_spec(lum: int) -> int {
    if lum <= 0 {
        0
    } else if 12 * lum / (LUM_SCALE as int) >= 13 {
        13
    } else {
        12 * lum / (LUM_SCALE as int)
    }
}

/// Quantize a fixed-point brightness into a ramp index.
///
/// The index never leaves `[0, 13]`: non-positive brightness clamps to the
/// faintest bucket, brightness at or above `13/12` clamps to the brightest.
pub fn luminance_index(lum: i64) -> (i: usize)
    ensures
        i as int == lum_index_spec(lum as int),
        i < RAMP_LEN,
{
    if lum <= 0 {
        0
    } else if lum >= 278 {
        proof {
            assert(12 * (lum as int) >= 3336) by (nonlinear_arith)
                requires
                    lum >= 278,
            ;
            vstd::arithmetic::div_mod::lemma_div_is_ordered(3336, 12 * (lum as int), 256);
            assert(3336int / 256int == 13);
        }
        13
    } else {
        let v: u64 = 12 * (lum as u64) / 256;
        proof {
            assert(12 * (lum as int) <= 3324) by (nonlinear_arith)
                requires
                    lum <= 277,
            ;
            vstd::arithmetic::div_mod::lemma_div_is_ordered(0, 12 * (lum as int), 256);
            vstd::arithmetic::div_mod::lemma_div_is_ordered(12 * (lum as int), 3324, 256);
            assert(3324int / 256int == 12);
        }
        v as usize
    }
}

/// Quantization never leaves the ramp: the index always lies in `[0, 13]`,
/// non-positive brightness maps to the faintest bucket, and brightness at or
/// above `13/12` clamps to the brightest bucket.
pub proof fn lemma_lum_index_clamped(lum: int)
    ensures
        0 <= lum_index_spec(lum) <= 13,
        lum <= 0 ==> lum_index_spec(lum) == 0,
        12 * lum >= 13 * (LUM_SCALE as int) ==> lum_index_spec(lum) == 13,
{
    if lum > 0 {
        vstd::arithmetic::div_mod::lemma_div_is_ordered(0, 12 * lum, 256);
        assert(0int / 256int == 0);
        if 12 * lum >= 13 * (LUM_SCALE as int) {
            vstd::arithmetic::div_mod::lemma_div_is_ordered(3328, 12 * lum, 256);
            assert(3328int / 256int == 13);
        }
    }
}

} // verus!
