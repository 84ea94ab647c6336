//! Division as machine integers do it.

use vstd::prelude::*;

verus! {

/// Quotient of `a` by a positive `b`, rounded toward zero.
pub open spec fn quotient(a: int, b: int) -> int {
    if a >= 0 {
        a / b
    } else {
        -((-a) / b)
    }
}

/// What a division leaves over is smaller than the divisor and has the sign of the dividend.
pub proof fn remainder_keeps_the_sign(a: int, b: int)
    requires
        b > 0,
    ensures
        a >= 0 ==> 0 <= a - b * quotient(a, b) < b,
        a <= 0 ==> -b < a - b * quotient(a, b) <= 0,
{
    assert(a >= 0 ==> 0 <= a - b * (a / b) < b) by (nonlinear_arith)
        requires
            b > 0,
    ;
    assert(-a >= 0 ==> 0 <= -a - b * ((-a) / b) < b) by (nonlinear_arith)
        requires
            b > 0,
    ;
    assert(b * (-((-a) / b)) == -(b * ((-a) / b))) by (nonlinear_arith);
}

} // verus!
