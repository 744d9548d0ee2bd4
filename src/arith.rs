use vstd::prelude::*;

verus! {

/// Division rounded towards negative infinity, for a positive divisor.
pub(crate) fn floor_div(a: i128, b: i128) -> (q: i128)
    requires
        b > 0,
        a > i128::MIN,
    ensures
        q == a / b,
{
    if a >= 0 {
        let q = (a as u128) / (b as u128);
        proof {
            assert(q as int == a / b);
        }
        q as i128
    } else {
        // -a > 0; floor(a / b) == -ceil(-a / b) == -((-a + b - 1) / b)
        let na: u128 = (0 - a) as u128;
        let bu: u128 = b as u128;
        let c: u128 = (na + bu - 1) / bu;
        proof {
            let ai = a as int;
            let bi = b as int;
            let ci = c as int;
            assert(ci == (-ai + bi - 1) / bi);
            assert(ci * bi <= -ai + bi - 1 < ci * bi + bi) by (nonlinear_arith)
                requires ci == (-ai + bi - 1) / bi, bi > 0;
            assert((-ci) * bi <= ai < (-ci) * bi + bi) by (nonlinear_arith)
                requires ci * bi <= -ai + bi - 1 < ci * bi + bi, bi > 0;
            lemma_div_unique(ai, bi, -ci);
            assert(ci <= -ai) by (nonlinear_arith)
                requires ci * bi <= -ai + bi - 1, bi > 0, -ai > 0;
        }
        0 - (c as i128)
    }
}

/// Division rounded towards positive infinity, for a positive divisor.
pub(crate) fn ceil_div(a: i128, b: i128) -> (q: i128)
    requires
        b > 0,
        a > i128::MIN,
        a < i128::MAX,
    ensures
        q == -((-(a as int)) / (b as int)),
        q * b >= a,
        q * b < a + b,
{
    let f = floor_div(0 - a, b);
    proof {
        let ai = a as int;
        let bi = b as int;
        assert(f * bi <= -ai < f * bi + bi) by (nonlinear_arith)
            requires f == (-ai) / bi, bi > 0;
        assert((-f) * bi >= ai && (-f) * bi < ai + bi) by (nonlinear_arith)
            requires f * bi <= -ai < f * bi + bi;
        assert(f > i128::MIN) by (nonlinear_arith)
            requires f * bi + bi > -ai, bi > 0, -ai > i128::MIN;
    }
    0 - f
}

/// The quotient of a Euclidean division by a positive divisor is the unique `q` with
/// `q * b <= a < q * b + b`.
pub proof fn lemma_div_unique(a: int, b: int, q: int)
    requires
        b > 0,
        q * b <= a < q * b + b,
    ensures
        a / b == q,
{
    vstd::arithmetic::div_mod::lemma_fundamental_div_mod(a, b);
    let r = a / b;
    assert(r * b <= a < r * b + b) by (nonlinear_arith)
        requires a == b * r + a % b, 0 <= a % b < b;
    if r < q {
        assert(r * b + b <= q * b) by (nonlinear_arith)
            requires r < q, b > 0;
    } else if r > q {
        assert(q * b + b <= r * b) by (nonlinear_arith)
            requires r > q, b > 0;
    }
}

} // verus!
