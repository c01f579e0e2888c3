//! Arithmetic on 32-bit integers that reports when a result does not fit.

use vstd::prelude::*;

verus! {

/// Division that rounds toward zero, as 32-bit integers divide.
pub open spec fn quotient(a: int, b: int) -> int
    recommends
        b != 0,
{
    if a >= 0 && b > 0 {
        a / b
    } else if a >= 0 {
        -(a / (-b))
    } else if b > 0 {
        -((-a) / b)
    } else {
        (-a) / (-b)
    }
}

pub open spec fn fits(value: int) -> bool {
    i32::MIN <= value <= i32::MAX
}

/// The sum, where it is a 32-bit integer.
pub fn checked_sum(a: i32, b: i32) -> (sum: Option<i32>)
    ensures
        sum == (if fits(a + b) {
            Some((a + b) as i32)
        } else {
            None
        }),
{
    let wide: i64 = a as i64 + b as i64;
    if wide < i32::MIN as i64 || wide > i32::MAX as i64 {
        None
    } else {
        Some(wide as i32)
    }
}

/// The difference, where it is a 32-bit integer.
pub fn checked_difference(a: i32, b: i32) -> (difference: Option<i32>)
    ensures
        difference == (if fits(a - b) {
            Some((a - b) as i32)
        } else {
            None
        }),
{
    let wide: i64 = a as i64 - b as i64;
    if wide < i32::MIN as i64 || wide > i32::MAX as i64 {
        None
    } else {
        Some(wide as i32)
    }
}

/// The product, where it is a 32-bit integer.
pub fn checked_product(a: i32, b: i32) -> (product: Option<i32>)
    ensures
        product == (if fits(a * b) {
            Some((a * b) as i32)
        } else {
            None
        }),
{
    assert(-0x8000_0000 * 0x8000_0000 <= (a as int) * (b as int) <= 0x8000_0000 * 0x8000_0000)
        by (nonlinear_arith)
        requires
            -0x8000_0000 <= a <= 0x8000_0000,
            -0x8000_0000 <= b <= 0x8000_0000,
    ;
    let wide: i64 = (a as i64) * (b as i64);
    if wide < i32::MIN as i64 || wide > i32::MAX as i64 {
        None
    } else {
        Some(wide as i32)
    }
}

/// The quotient rounded toward zero, where the divisor is not zero and the
/// quotient is a 32-bit integer.
pub fn checked_quotient(a: i32, b: i32) -> (result: Option<i32>)
    ensures
        result == (if b != 0 && fits(quotient(a as int, b as int)) {
            Some(quotient(a as int, b as int) as i32)
        } else {
            None
        }),
{
    if b == 0 {
        return None;
    }
    let x: i64 = if a >= 0 {
        a as i64
    } else {
        -(a as i64)
    };
    let y: i64 = if b >= 0 {
        b as i64
    } else {
        -(b as i64)
    };
    let magnitude: i64 = x / y;
    assert(0 <= magnitude <= x) by (nonlinear_arith)
        requires
            magnitude == x / y,
            x >= 0,
            y > 0,
    ;
    let wide: i64 = if (a >= 0) == (b > 0) {
        magnitude
    } else {
        -magnitude
    };
    if wide < i32::MIN as i64 || wide > i32::MAX as i64 {
        None
    } else {
        Some(wide as i32)
    }
}

} // verus!
