//! The integer square root, computed without floating point so that every
//! machine settles a trade on the same amount.

use vstd::prelude::*;

verus! {

/// `root` is the integer square root of `n`: the largest whole number whose
/// square does not exceed `n`.
pub open spec fn is_integer_sqrt(n: int, root: int) -> bool {
    0 <= root && root * root <= n < (root + 1) * (root + 1)
}

/// The integer square root of `n`.
pub open spec fn spec_integer_sqrt(n: int) -> int {
    choose|root: int| is_integer_sqrt(n, root)
}

/// A number has at most one integer square root.
pub proof fn lemma_integer_sqrt_unique(n: int, r1: int, r2: int)
    requires
        is_integer_sqrt(n, r1),
        is_integer_sqrt(n, r2),
    ensures
        r1 == r2,
{
    if r1 < r2 {
        assert((r1 + 1) * (r1 + 1) <= r2 * r2) by (nonlinear_arith)
            requires
                0 <= r1,
                r1 + 1 <= r2,
        ;
    } else if r2 < r1 {
        assert((r2 + 1) * (r2 + 1) <= r1 * r1) by (nonlinear_arith)
            requires
                0 <= r2,
                r2 + 1 <= r1,
        ;
    }
}

/// Every number from zero up has an integer square root.
pub proof fn lemma_integer_sqrt_exists(n: int)
    requires
        0 <= n,
    ensures
        is_integer_sqrt(n, spec_integer_sqrt(n)),
    decreases n,
{
    if n == 0 {
        assert(is_integer_sqrt(0, 0));
    } else {
        lemma_integer_sqrt_exists(n - 1);
        let r = spec_integer_sqrt(n - 1);
        if (r + 1) * (r + 1) <= n {
            assert((r + 1) * (r + 1) == n);
            assert(n < (r + 2) * (r + 2)) by (nonlinear_arith)
                requires
                    0 <= r,
                    (r + 1) * (r + 1) == n,
            ;
            assert(is_integer_sqrt(n, r + 1));
        } else {
            assert(is_integer_sqrt(n, r));
        }
    }
}

/// The root bounds exactly the numbers whose square does not exceed `n`.
pub proof fn lemma_integer_sqrt_bounds(n: int, root: int, a: int)
    requires
        is_integer_sqrt(n, root),
        0 <= a,
    ensures
        a * a <= n <==> a <= root,
{
    if a <= root {
        assert(a * a <= root * root) by (nonlinear_arith)
            requires
                0 <= a <= root,
        ;
    } else {
        assert((root + 1) * (root + 1) <= a * a) by (nonlinear_arith)
            requires
                0 <= root,
                root + 1 <= a,
        ;
    }
}

/// Computes the integer square root of `n` by bisection.
pub fn integer_sqrt(n: u64) -> (root: u64)
    ensures
        is_integer_sqrt(n as int, root as int),
        root == spec_integer_sqrt(n as int),
        root <= 4294967295,
{
    let mut low: u64 = 0;
    let mut high: u64 = 4294967296;
    while high - low > 1
        invariant
            low < high <= 4294967296,
            low * low <= n,
            n < high * high,
        decreases high - low,
    {
        let mid: u64 = low + (high - low) / 2;
        assert(mid * mid <= 4294967295 * 4294967295) by (nonlinear_arith)
            requires
                0 <= mid <= 4294967295,
        ;
        if mid * mid <= n {
            low = mid;
        } else {
            high = mid;
        }
    }
    proof {
        lemma_integer_sqrt_unique(n as int, low as int, spec_integer_sqrt(n as int));
    }
    low
}

} // verus!
