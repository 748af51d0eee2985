//! Small arithmetic facts shared by the tracker and the aggregator.

use vstd::prelude::*;

verus! {

/// Absolute value.
pub open spec fn abs_i(a: int) -> int {
    if a >= 0 {
        a
    } else {
        -a
    }
}

/// The larger of two values.
pub open spec fn max_i(a: int, b: int) -> int {
    if a >= b {
        a
    } else {
        b
    }
}

/// Integer division truncating toward zero (the rounding a float-to-int
/// cast applies), for a positive divisor.
pub open spec fn div_trunc(a: int, b: int) -> int {
    if a >= 0 {
        a / b
    } else {
        -((-a) / b)
    }
}

/// Division truncating toward zero, matching `div_trunc`.
pub fn div_trunc_exec(a: i128, b: i128) -> (r: i128)
    requires
        b > 0,
        -0x7fffffffffffffffffffffffffffffff <= a,
    ensures
        r == div_trunc(a as int, b as int),
{
    if a >= 0 {
        let q = (a as u128) / (b as u128);
        proof {
            lemma_div_bounds(a as int, b as int, a as int);
        }
        q as i128
    } else {
        let q = ((-a) as u128) / (b as u128);
        proof {
            lemma_div_bounds(-(a as int), b as int, -(a as int));
        }
        -(q as i128)
    }
}

/// Truncating division by `b` of anything within `c * b` lands within `c`.
pub proof fn lemma_div_trunc_within(a: int, b: int, c: int)
    requires
        1 <= b,
        0 <= c,
        -c * b <= a <= c * b,
    ensures
        -c <= div_trunc(a, b) <= c,
{
    let m = if a >= 0 {
        a
    } else {
        -a
    };
    assert(m <= c * b) by (nonlinear_arith)
        requires
            -c * b <= a <= c * b,
            m == (if a >= 0 {
                a
            } else {
                -a
            }),
    ;
    vstd::arithmetic::div_mod::lemma_div_is_ordered(m, c * b, b);
    vstd::arithmetic::div_mod::lemma_div_multiples_vanish(c, b);
    vstd::arithmetic::mul::lemma_mul_is_commutative(c, b);
    lemma_div_bounds(m, b, m);
}

/// A product of two bounded factors is bounded by the product of the
/// bounds.
pub proof fn lemma_mul_bounds(a: int, b: int, am: int, bm: int)
    requires
        -am <= a <= am,
        -bm <= b <= bm,
        0 <= am,
        0 <= bm,
    ensures
        -(am * bm) <= a * b <= am * bm,
{
    assert(-(am * bm) <= a * b <= am * bm) by (nonlinear_arith)
        requires
            -am <= a <= am,
            -bm <= b <= bm,
            0 <= am,
            0 <= bm,
    ;
}

/// Division of a bounded non-negative value by a positive divisor is
/// bounded by the value's bound.
pub proof fn lemma_div_bounds(a: int, b: int, am: int)
    requires
        0 <= a <= am,
        1 <= b,
    ensures
        0 <= a / b <= am,
{
    assert(0 <= a / b <= am) by (nonlinear_arith)
        requires
            0 <= a <= am,
            1 <= b,
    ;
}

} // verus!
