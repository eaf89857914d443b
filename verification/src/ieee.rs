//! IEEE-754 double-precision values carried as their bit patterns
//! (`f64::to_bits`), with the comparisons that command validation needs.

use vstd::prelude::*;

verus! {

/// Bit pattern of `180.0`.
pub const F64_180: u64 = 0x4066_8000_0000_0000;
/// Bit pattern of `-180.0`.
pub const F64_NEG_180: u64 = 0xc066_8000_0000_0000;
/// Bit pattern of `90.0`.
pub const F64_90: u64 = 0x4056_8000_0000_0000;
/// Bit pattern of `-90.0`.
pub const F64_NEG_90: u64 = 0xc056_8000_0000_0000;
/// Bit pattern of `0.0`.
pub const F64_ZERO: u64 = 0;
/// Bit pattern of `100.0`.
pub const F64_100: u64 = 0x4059_0000_0000_0000;

/// Biased exponent field.
pub open spec fn exponent(bits: u64) -> int {
    (bits as int / 0x10_0000_0000_0000) % 0x800
}

/// Fraction (mantissa) field.
pub open spec fn fraction(bits: u64) -> int {
    bits as int % 0x10_0000_0000_0000
}

/// Sign bit set.
pub open spec fn negative(bits: u64) -> bool {
    bits as int >= 0x8000_0000_0000_0000
}

/// Everything but the sign bit.
pub open spec fn magnitude(bits: u64) -> int {
    bits as int % 0x8000_0000_0000_0000
}

/// Neither infinite nor NaN (`f64::is_finite`).
pub open spec fn is_finite(bits: u64) -> bool {
    exponent(bits) != 0x7ff
}

/// Not a number.
pub open spec fn is_nan(bits: u64) -> bool {
    exponent(bits) == 0x7ff && fraction(bits) != 0
}

/// An integer that orders non-NaN doubles as their values do: positive
/// magnitudes go up, negative ones go down, and both zeros meet at 0.
pub open spec fn order_key(bits: u64) -> int {
    if negative(bits) {
        -magnitude(bits)
    } else {
        magnitude(bits)
    }
}

/// `a < b` on doubles; false whenever either side is NaN.
pub open spec fn lt(a: u64, b: u64) -> bool {
    !is_nan(a) && !is_nan(b) && order_key(a) < order_key(b)
}

/// `a <= b` on doubles; false whenever either side is NaN.
pub open spec fn le(a: u64, b: u64) -> bool {
    !is_nan(a) && !is_nan(b) && order_key(a) <= order_key(b)
}

fn exponent_of(bits: u64) -> (e: u64)
    ensures
        e as int == exponent(bits),
{
    (bits / 0x10_0000_0000_0000) % 0x800
}

/// `f64::is_finite` on a bit pattern.
pub fn f64_is_finite(bits: u64) -> (b: bool)
    ensures
        b == is_finite(bits),
{
    exponent_of(bits) != 0x7ff
}

fn f64_is_nan(bits: u64) -> (b: bool)
    ensures
        b == is_nan(bits),
{
    exponent_of(bits) == 0x7ff && bits % 0x10_0000_0000_0000 != 0
}

fn order_key_of(bits: u64) -> (k: i64)
    ensures
        k as int == order_key(bits),
{
    let m: u64 = bits % 0x8000_0000_0000_0000;
    if bits >= 0x8000_0000_0000_0000 {
        -(m as i64)
    } else {
        m as i64
    }
}

/// `a < b` on doubles given by their bits.
pub fn f64_lt(a: u64, b: u64) -> (r: bool)
    ensures
        r == lt(a, b),
{
    !f64_is_nan(a) && !f64_is_nan(b) && order_key_of(a) < order_key_of(b)
}

/// `a <= b` on doubles given by their bits.
pub fn f64_le(a: u64, b: u64) -> (r: bool)
    ensures
        r == le(a, b),
{
    !f64_is_nan(a) && !f64_is_nan(b) && order_key_of(a) <= order_key_of(b)
}

} // verus!
