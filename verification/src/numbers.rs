//! Integer division as the machine does it.

use vstd::prelude::*;
use vstd::arithmetic::div_mod::lemma_fundamental_div_mod;

verus! {

/// The quotient of `a` by `b`, rounded toward zero: the quotient of the two
/// magnitudes, negative where exactly one of `a` and `b` is.
pub open spec fn quotient(a: int, b: int) -> int
    recommends
        b != 0,
{
    if a >= 0 && b > 0 {
        a / b
    } else if a >= 0 {
        -(a / (-b))
    } else if b > 0 {
        -((-a) / b)
    } else {
        (-a) / (-b)
    }
}

/// Division by a negative number is the negated division by its magnitude.
proof fn lemma_negative_divisor(x: int, d: int)
    requires
        x >= 0,
        d < 0,
    ensures
        x / d == -(x / (-d)),
{
    let q = x / (-d);
    let r = x % (-d);
    lemma_fundamental_div_mod(x, -d);
    assert(x == d * (-q) + r) by (nonlinear_arith)
        requires
            x == (-d) * q + r,
    ;
    assert(x / d == -q) by (nonlinear_arith)
        requires
            x == d * (-q) + r,
            0 <= r < -d,
            d < 0,
    ;
}

/// What `/` computes on two `i32` is `quotient`, wherever `/` is defined:
/// the divisor is not zero, and the result is not one more than `i32` holds.
pub proof fn lemma_machine_division(a: i32, b: i32)
    requires
        b != 0,
        !(a == i32::MIN && b == -1),
    ensures
        i32::MIN <= quotient(a as int, b as int) <= i32::MAX,
        a >= 0 ==> (a as int) / (b as int) == quotient(a as int, b as int),
        a < 0 ==> -((-(a as int)) / (b as int)) == quotient(a as int, b as int),
{
    let x: int = if a < 0 {
        -(a as int)
    } else {
        a as int
    };
    let d: int = if b < 0 {
        -(b as int)
    } else {
        b as int
    };
    if b < 0 {
        lemma_negative_divisor(x, b as int);
    }
    assert(0 <= x / d <= x) by (nonlinear_arith)
        requires
            x >= 0,
            d > 0,
    ;
    if a < 0 && b < 0 {
        assert(x / d <= i32::MAX) by (nonlinear_arith)
            requires
                0 <= x <= 0x8000_0000,
                d >= 1,
                !(x == 0x8000_0000 && d == 1),
        ;
    }
}

} // verus!
