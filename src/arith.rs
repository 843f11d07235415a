use vstd::prelude::*;
use vstd::arithmetic::div_mod::{
    lemma_fundamental_div_mod,
    lemma_fundamental_div_mod_converse,
};

verus! {

/// `a / b` rounded toward negative infinity, for a positive `b`.
pub fn floor_div(a: i128, b: i128) -> (q: i128)
    requires
        b > 0,
        -0x1000_0000_0000_0000_0000_0000_0000 < a < 0x1000_0000_0000_0000_0000_0000_0000,
    ensures
        q == a / b,
{
    if a >= 0 {
        a / b
    } else {
        let n = -a - 1;
        let t = n / b;
        proof {
            lemma_fundamental_div_mod(n as int, b as int);
            let m = n % b;
            assert(a == (-t - 1) * b + (b - m - 1)) by (nonlinear_arith)
                requires
                    n == b * t + m,
                    n == -a - 1,
            ;
            lemma_fundamental_div_mod_converse(a as int, b as int, -t - 1, b - m - 1);
        }
        -t - 1
    }
}

/// Bounds of a floor division: `b * (a / b) <= a < b * (a / b) + b`.
pub proof fn lemma_div_bounds(a: int, b: int)
    requires
        b > 0,
    ensures
        (a / b) * b <= a,
        a < (a / b) * b + b,
{
    lemma_fundamental_div_mod(a, b);
    assert((a / b) * b == b * (a / b)) by (nonlinear_arith);
}

/// Dividing by a positive number does not move a value away from zero.
pub proof fn lemma_div_toward_zero(a: int, b: int)
    requires
        b >= 1,
    ensures
        a >= 0 ==> 0 <= a / b <= a,
        a < 0 ==> a <= a / b < 0,
{
    lemma_div_bounds(a, b);
    let q = a / b;
    if a >= 0 {
        assert(q >= 0) by (nonlinear_arith)
            requires
                a >= 0,
                b >= 1,
                a < q * b + b,
        ;
        assert(q <= a) by (nonlinear_arith)
            requires
                q >= 0,
                b >= 1,
                q * b <= a,
        ;
    } else {
        assert(q < 0) by (nonlinear_arith)
            requires
                a < 0,
                b >= 1,
                q * b <= a,
        ;
        assert(a <= q) by (nonlinear_arith)
            requires
                q < 0,
                b >= 1,
                a < q * b + b,
        ;
    }
}

} // verus!
