//! Small integer-arithmetic helpers shared by the analytics modules.

use vstd::prelude::*;

verus! {

/// Mathematical integer square root: the largest `r >= 0` with `r * r <= n`
/// (and `0` for negative arguments).
pub open spec fn spec_isqrt(n: int) -> int
    decreases n,
{
    if n <= 0 {
        0
    } else if (spec_isqrt(n - 1) + 1) * (spec_isqrt(n - 1) + 1) <= n {
        spec_isqrt(n - 1) + 1
    } else {
        spec_isqrt(n - 1)
    }
}

pub proof fn lemma_isqrt_bounds(n: int)
    requires
        n >= 0,
    ensures
        0 <= spec_isqrt(n),
        spec_isqrt(n) * spec_isqrt(n) <= n,
        n < (spec_isqrt(n) + 1) * (spec_isqrt(n) + 1),
    decreases n,
{
    if n == 0 {
        assert(spec_isqrt(0) == 0);
    } else {
        lemma_isqrt_bounds(n - 1);
        let p = spec_isqrt(n - 1);
        if (p + 1) * (p + 1) <= n {
            assert(spec_isqrt(n) == p + 1);
            assert(n - 1 < (p + 1) * (p + 1));
            assert(n < (p + 2) * (p + 2)) by (nonlinear_arith)
                requires
                    n <= (p + 1) * (p + 1),
                    p >= 0,
            ;
        } else {
            assert(spec_isqrt(n) == p);
        }
    }
}

/// The bounds `r * r <= n < (r + 1) * (r + 1)` pin the square root down.
pub proof fn lemma_isqrt_unique(n: int, r: int)
    requires
        n >= 0,
        r >= 0,
        r * r <= n,
        n < (r + 1) * (r + 1),
    ensures
        r == spec_isqrt(n),
{
    lemma_isqrt_bounds(n);
    let s = spec_isqrt(n);
    if r < s {
        assert((r + 1) * (r + 1) <= s * s) by (nonlinear_arith)
            requires
                0 <= r,
                r + 1 <= s,
        ;
    }
    if s < r {
        assert((s + 1) * (s + 1) <= r * r) by (nonlinear_arith)
            requires
                0 <= s,
                s + 1 <= r,
        ;
    }
}

/// Integer square root of a small number, by counting up.
pub fn isqrt_small(n: u64) -> (r: u64)
    requires
        n < 1_000_000,
    ensures
        r == spec_isqrt(n as int),
{
    let mut r: u64 = 0;
    while (r + 1) * (r + 1) <= n
        invariant
            n < 1_000_000,
            r < 1000,
            r * r <= n,
            (r + 1) * (r + 1) <= 1_000_000,
        decreases n - r,
    {
        r = r + 1;
        assert(r < 1000) by (nonlinear_arith)
            requires
                r * r <= n,
                n < 1_000_000,
                0 <= r,
        ;
        assert((r + 1) * (r + 1) <= 1_000_000) by (nonlinear_arith)
            requires
                r < 1000,
        ;
        assert(r <= n) by (nonlinear_arith)
            requires
                1 <= r,
                r * r <= n,
        ;
    }
    proof {
        lemma_isqrt_unique(n as int, r as int);
    }
    r
}

} // verus!
