//! Integer helpers shared by the whole algebra: the floor square root that
//! backs vector length, and small order/absolute-value utilities on `i64`.

use vstd::prelude::*;

verus! {

/// `r` is the floor of the square root of `n`.
pub open spec fn is_sqrt(n: int, r: int) -> bool {
    &&& 0 <= r
    &&& r * r <= n
    &&& n < (r + 1) * (r + 1)
}

/// Floor of the square root of `n`, and 0 for negative `n`.
pub open spec fn isqrt(n: int) -> int
    decreases n,
{
    if n <= 0 {
        0
    } else if (isqrt(n - 1) + 1) * (isqrt(n - 1) + 1) <= n {
        isqrt(n - 1) + 1
    } else {
        isqrt(n - 1)
    }
}

/// `n` fits in the machine scalar kind.
pub open spec fn in_i64(n: int) -> bool {
    i64::MIN <= n <= i64::MAX
}

/// `isqrt` satisfies the floor-square-root characterization.
pub proof fn lemma_isqrt_is_sqrt(n: int)
    requires
        0 <= n,
    ensures
        is_sqrt(n, isqrt(n)),
    decreases n,
{
    if n == 0 {
    } else {
        lemma_isqrt_is_sqrt(n - 1);
        let r = isqrt(n - 1);
        if (r + 1) * (r + 1) <= n {
            assert((r + 1) * (r + 1) < (r + 2) * (r + 2)) by (nonlinear_arith)
                requires
                    0 <= r,
            ;
        }
    }
}

/// The floor square root is unique.
pub proof fn lemma_is_sqrt_unique(n: int, r1: int, r2: int)
    requires
        is_sqrt(n, r1),
        is_sqrt(n, r2),
    ensures
        r1 == r2,
{
    assert(r1 == r2) by (nonlinear_arith)
        requires
            0 <= r1,
            0 <= r2,
            r1 * r1 <= n,
            n < (r1 + 1) * (r1 + 1),
            r2 * r2 <= n,
            n < (r2 + 1) * (r2 + 1),
    ;
}

/// Pins the floor square root of a value: whatever satisfies the
/// characterization is `isqrt(n)`.
pub proof fn lemma_isqrt_value(n: int, r: int)
    requires
        is_sqrt(n, r),
    ensures
        isqrt(n) == r,
{
    assert(r * r >= 0) by (nonlinear_arith)
        requires
            0 <= r,
    ;
    lemma_isqrt_is_sqrt(n);
    lemma_is_sqrt_unique(n, isqrt(n), r);
}

/// Any floor square root of a value at most `i64::MAX` is at most 3037000499.
pub proof fn lemma_is_sqrt_bound(n: int, r: int)
    requires
        is_sqrt(n, r),
        n <= i64::MAX,
    ensures
        0 <= r <= 3037000499,
{
    assert(r <= 3037000499) by (nonlinear_arith)
        requires
            0 <= r,
            r * r <= n,
            n <= 0x7fff_ffff_ffff_ffff,
    ;
}

/// Maximum of two machine scalars.
pub fn max_i64(a: i64, b: i64) -> (r: i64)
    ensures
        r == vstd::math::max(a as int, b as int),
{
    if a >= b {
        a
    } else {
        b
    }
}

/// Minimum of two machine scalars.
pub fn min_i64(a: i64, b: i64) -> (r: i64)
    ensures
        r == vstd::math::min(a as int, b as int),
{
    if a <= b {
        a
    } else {
        b
    }
}

/// Absolute value of a machine scalar; `i64::MIN` has no representable
/// absolute value and is excluded.
pub fn abs_i64(a: i64) -> (r: i64)
    requires
        a > i64::MIN,
    ensures
        r == vstd::math::abs(a as int),
{
    if a < 0 {
        -a
    } else {
        a
    }
}

/// Floor square root of a machine word, by bisection.
pub fn int_sqrt(n: u64) -> (r: u64)
    ensures
        r == isqrt(n as int),
        is_sqrt(n as int, r as int),
{
    let mut lo: u64 = 0;
    let mut hi: u64 = 4294967296;
    proof {
        assert((4294967296 as int) * (4294967296 as int) == 18446744073709551616) by (nonlinear_arith);
    }
    while hi - lo > 1
        invariant
            lo < hi <= 4294967296,
            (lo as int) * (lo as int) <= n as int,
            (n as int) < (hi as int) * (hi as int),
        decreases hi - lo,
    {
        let mid: u64 = lo + (hi - lo) / 2;
        proof {
            assert((mid as int) * (mid as int) <= 18446744073709551616) by (nonlinear_arith)
                requires
                    mid <= 4294967296,
            ;
        }
        let sq: u128 = (mid as u128) * (mid as u128);
        if sq <= n as u128 {
            lo = mid;
        } else {
            hi = mid;
        }
    }
    proof {
        lemma_isqrt_value(n as int, lo as int);
    }
    lo
}

} // verus!
