//! Integer arithmetic as the contract's code performs it: saturating
//! products and differences, and Rust's truncating division.

use vstd::prelude::*;

verus! {

/// `x` held to the range of `i128`.
pub open spec fn clamp_i128(x: int) -> int {
    if x > i128::MAX {
        i128::MAX as int
    } else if x < i128::MIN {
        i128::MIN as int
    } else {
        x
    }
}

pub open spec fn abs(a: int) -> int {
    if a < 0 {
        -a
    } else {
        a
    }
}

/// Quotient rounded toward zero, as Rust's `/` on signed integers.
pub open spec fn quot(a: int, b: int) -> int {
    if (a >= 0) == (b > 0) {
        abs(a) / abs(b)
    } else {
        -(abs(a) / abs(b))
    }
}

/// Remainder that goes with `quot`, as Rust's `%`: it has the sign of `a`.
pub open spec fn rem(a: int, b: int) -> int {
    if a >= 0 {
        abs(a) % abs(b)
    } else {
        -(abs(a) % abs(b))
    }
}

/// Euclidean division by a negative divisor, by way of its magnitude.
proof fn lemma_div_negative_divisor(a: int, b: int)
    requires
        b < 0,
    ensures
        a / b == -(a / (-b)),
        a % b == a % (-b),
{
    let q = a / (-b);
    let r = a % (-b);
    vstd::arithmetic::div_mod::lemma_fundamental_div_mod(a, -b);
    vstd::arithmetic::div_mod::lemma_mod_bound(a, -b);
    vstd::arithmetic::div_mod::lemma_fundamental_div_mod(a, b);
    let q2 = a / b;
    let r2 = a % b;
    assert(a == b * (-q) + r) by (nonlinear_arith)
        requires
            a == (-b) * q + r,
    ;
    assert(q2 == -q) by (nonlinear_arith)
        requires
            a == b * q2 + r2,
            a == b * (-q) + r,
            0 <= r < -b,
            0 <= r2 < -b,
            b < 0,
    ;
}

/// Truncating division splits `a` into a multiple of `b` and a remainder
/// smaller than `b` in magnitude, with the sign of `a`.
pub proof fn lemma_quot_rem(a: int, b: int)
    requires
        b != 0,
    ensures
        b * quot(a, b) + rem(a, b) == a,
        abs(rem(a, b)) < abs(b),
        a >= 0 ==> rem(a, b) >= 0,
        a < 0 ==> rem(a, b) <= 0,
{
    let x = abs(a);
    let y = abs(b);
    vstd::arithmetic::div_mod::lemma_fundamental_div_mod(x, y);
    vstd::arithmetic::div_mod::lemma_mod_bound(x, y);
    let q = x / y;
    let r = x % y;
    if a >= 0 && b < 0 {
        assert(b * (-q) == y * q) by (nonlinear_arith)
            requires
                y == -b,
        ;
    } else if a < 0 && b > 0 {
        assert(b * (-q) + (-r) == -(y * q + r)) by (nonlinear_arith)
            requires
                y == b,
        ;
    } else if a < 0 && b < 0 {
        assert(b * q + (-r) == -(y * q + r)) by (nonlinear_arith)
            requires
                y == -b,
        ;
    }
}

/// Rust's `a / b` and `a % b`.
pub fn quot_rem(a: i128, b: i128) -> (r: (i128, i128))
    requires
        b != 0,
        !(a == i128::MIN && b == -1),
    ensures
        r.0 == quot(a as int, b as int),
        r.1 == rem(a as int, b as int),
{
    proof {
        let x = abs(a as int);
        let y = abs(b as int);
        vstd::arithmetic::div_mod::lemma_div_basics_4(x, y);
        vstd::arithmetic::div_mod::lemma_div_basics_5(x, y);
        if b < 0 {
            lemma_div_negative_divisor(a as int, b as int);
            lemma_div_negative_divisor(-(a as int), b as int);
        }
    }
    let q = a / b;
    proof {
        if a < 0 && b < 0 {
            // The quotient of two negatives is positive; it fits since
            // `i128::MIN / -1` is excluded.
            let x = -(a as int);
            let y = -(b as int);
            if y == 1 {
                vstd::arithmetic::div_mod::lemma_div_basics_2(x);
            } else {
                vstd::arithmetic::div_mod::lemma_div_is_ordered_by_denominator(x, 2, y);
            }
        }
    }
    (q, a % b)
}

/// `a * b`, saturating at the bounds of `i128`.
pub fn saturating_mul(a: i128, b: i128) -> (r: i128)
    ensures
        r == clamp_i128(a * b),
{
    match a.checked_mul(b) {
        Some(v) => v,
        None => {
            if (a < 0) == (b < 0) {
                assert(a * b > 0) by (nonlinear_arith)
                    requires
                        (a < 0) == (b < 0),
                        a * b > i128::MAX || a * b < i128::MIN,
                ;
                i128::MAX
            } else {
                assert(a * b < 0) by (nonlinear_arith)
                    requires
                        (a < 0) != (b < 0),
                        a * b > i128::MAX || a * b < i128::MIN,
                ;
                i128::MIN
            }
        },
    }
}

/// `a - b`, saturating at the bounds of `i128`.
pub fn saturating_sub(a: i128, b: i128) -> (r: i128)
    ensures
        r == clamp_i128(a - b),
{
    match a.checked_sub(b) {
        Some(v) => v,
        None => if b < 0 {
            i128::MAX
        } else {
            i128::MIN
        },
    }
}

} // verus!
