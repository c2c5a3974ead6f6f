//! Fixed-point arithmetic.
//!
//! A value `v` stands for the decimal number `v / SCALE`. Products of two such
//! values are brought back to one scale by a division that rounds toward zero.

use vstd::prelude::*;

verus! {

/// Number of fixed-point steps in one whole unit.
pub const SCALE: u64 = 100_000_000;

/// Absolute value of an integer.
pub open spec fn magnitude(x: int) -> int {
    if x < 0 {
        -x
    } else {
        x
    }
}

/// Product of two non-negative fixed-point values, as a fixed-point value.
pub open spec fn scaled_product(a: int, b: int) -> int
    recommends
        a >= 0,
        b >= 0,
{
    (a * b) / (SCALE as int)
}

/// Product of two fixed-point values of either sign, rounded toward zero.
pub open spec fn signed_scaled_product(a: int, b: int) -> int {
    if (a < 0) == (b < 0) {
        scaled_product(magnitude(a), magnitude(b))
    } else {
        -scaled_product(magnitude(a), magnitude(b))
    }
}

/// Quotient of two non-negative fixed-point values, as a fixed-point value.
pub open spec fn scaled_quotient(a: int, b: int) -> int
    recommends
        a >= 0,
        b > 0,
{
    (a * (SCALE as int)) / b
}

/// The product of two 64-bit values fits in 128 bits.
pub proof fn lemma_product_fits_u128(a: u64, b: u64)
    ensures
        0 <= a * b <= u128::MAX,
{
    assert(0 <= a * b <= 0xFFFF_FFFF_FFFF_FFFF * 0xFFFF_FFFF_FFFF_FFFF) by (nonlinear_arith)
        requires
            0 <= a <= 0xFFFF_FFFF_FFFF_FFFF,
            0 <= b <= 0xFFFF_FFFF_FFFF_FFFF,
    ;
}

/// Absolute value of a signed fixed-point value.
pub fn abs_i64(x: i64) -> (m: u64)
    ensures
        m == magnitude(x as int),
{
    if x >= 0 {
        x as u64
    } else {
        let below: i64 = -(x + 1);
        (below as u64) + 1
    }
}

/// Multiplies two fixed-point values into 128 bits, which hold every such
/// product, with room for a sign.
pub fn mul_scaled_wide(a: u64, b: u64) -> (product: u128)
    ensures
        product == scaled_product(a as int, b as int),
        product <= u128::MAX / 100_000_000,
{
    proof {
        lemma_product_fits_u128(a, b);
    }
    let wide: u128 = (a as u128) * (b as u128);
    wide / (SCALE as u128)
}

/// Multiplies two fixed-point values; `None` when the product does not fit.
pub fn mul_scaled(a: u64, b: u64) -> (product: Option<u64>)
    ensures
        product == (if scaled_product(a as int, b as int) <= u64::MAX {
            Some(scaled_product(a as int, b as int) as u64)
        } else {
            None
        }),
{
    let scaled: u128 = mul_scaled_wide(a, b);
    if scaled <= u64::MAX as u128 {
        Some(scaled as u64)
    } else {
        None
    }
}

/// Divides one fixed-point value by another; `None` when the divisor is zero or
/// the quotient does not fit.
pub fn div_scaled(a: u64, b: u64) -> (quotient: Option<u64>)
    ensures
        quotient == (if b != 0 && scaled_quotient(a as int, b as int) <= u64::MAX {
            Some(scaled_quotient(a as int, b as int) as u64)
        } else {
            None
        }),
{
    if b == 0 {
        return None;
    }
    proof {
        lemma_product_fits_u128(a, SCALE);
    }
    let wide: u128 = (a as u128) * (SCALE as u128);
    let scaled: u128 = wide / (b as u128);
    if scaled <= u64::MAX as u128 {
        Some(scaled as u64)
    } else {
        None
    }
}

/// Multiplies two signed fixed-point factors, the second given by sign and
/// magnitude of up to 65 bits. The result always fits in 128 bits.
pub fn mul_scaled_signed(a: i64, b_negative: bool, b_magnitude: u64) -> (product: i128)
    ensures
        product == signed_scaled_product(
            a as int,
            if b_negative {
                -(b_magnitude as int)
            } else {
                b_magnitude as int
            },
        ),
{
    let a_magnitude: u64 = abs_i64(a);
    let value: i128 = mul_scaled_wide(a_magnitude, b_magnitude) as i128;
    assert(a_magnitude == 0 || b_magnitude == 0 ==> a_magnitude * b_magnitude == 0)
        by (nonlinear_arith);
    if (a < 0) == b_negative {
        value
    } else {
        -value
    }
}

} // verus!
