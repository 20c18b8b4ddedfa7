//! Fixed-point scalar arithmetic.
//!
//! Every scalar the kernel stores — coordinates, velocities, masses,
//! restitution and friction coefficients — is an `i64` holding a multiple of
//! `1/FX_ONE` of a unit.  The operations here are total: instead of a
//! precondition on their inputs they report a value that left the
//! representable range as `None`, which the kernel stages absorb as
//! "no effect this step".

use vstd::prelude::*;
use vstd::arithmetic::div_mod::*;

verus! {

/// Number of fixed-point steps in one unit: the scale of every scalar.
pub const FX_ONE: i64 = 65536;

/// Largest magnitude a kernel scalar may take.  Results beyond this bound
/// are treated as out of range (a degenerate numeric case), never wrapped.
pub const FX_MAX: i64 = 1_000_000_000_000;

/// Truncating (round-toward-zero) division: the rounding of the machine's
/// signed division, defined here over mathematical integers.
pub open spec fn tdiv(a: int, b: int) -> int {
    if a >= 0 {
        a / b
    } else {
        -((-a) / b)
    }
}

/// The mathematical value of the fixed-point product of `a` and `b`.
pub open spec fn fx_mul_v(a: int, b: int) -> int {
    tdiv(a * b, FX_ONE as int)
}

/// The mathematical value of the fixed-point quotient of `a` by `b`.
pub open spec fn fx_div_v(a: int, b: int) -> int {
    tdiv(a * (FX_ONE as int), b)
}

/// Whether `x` lies in the representable range of a kernel scalar.
pub open spec fn fx_wf(x: int) -> bool {
    -FX_MAX <= x <= FX_MAX
}

/// Truncating division negates with its dividend.
pub proof fn lemma_tdiv_neg(a: int, b: int)
    requires
        b != 0,
    ensures
        tdiv(-a, b) == -tdiv(a, b),
{
    if a == 0 {
        lemma_div_basics(b);
    }
}

/// A dividend bounded by `c * b` has a truncated quotient bounded by `c`.
pub proof fn lemma_tdiv_le(a: int, b: int, c: int)
    requires
        b >= 1,
        c >= 0,
        -(c * b) <= a <= c * b,
    ensures
        -c <= tdiv(a, b) <= c,
{
    if a >= 0 {
        lemma_div_is_ordered(a, c * b, b);
        lemma_div_by_multiple(c, b);
        lemma_div_pos_is_pos(a, b);
    } else {
        lemma_div_is_ordered(-a, c * b, b);
        lemma_div_by_multiple(c, b);
        lemma_div_pos_is_pos(-a, b);
    }
}

/// A fixed-point square is never negative.
pub proof fn lemma_square_fx_nonneg(s: int)
    ensures
        fx_mul_v(s, s) >= 0,
{
    assert(s * s >= 0) by (nonlinear_arith);
    lemma_div_pos_is_pos(s * s, FX_ONE as int);
}

/// A number whose double is known divides that double by two exactly.
pub proof fn lemma_div_exact_double(l: int, d: int)
    requires
        l >= 0,
        2 * l == d,
    ensures
        d / 2 == l,
{
    lemma_div_by_multiple(l, 2);
}

/// Whether `r` is the integer square root (rounded down) of `n`.
pub open spec fn is_isqrt(n: int, r: int) -> bool {
    0 <= r && r * r <= n < (r + 1) * (r + 1)
}

/// The integer square root of a nonnegative `n`, rounded down.
pub open spec fn isqrt(n: int) -> int {
    choose|r: int| is_isqrt(n, r)
}

proof fn lemma_square_increases(r: int)
    by (nonlinear_arith)
    requires
        r >= 0,
    ensures
        (r + 1) * (r + 1) < (r + 2) * (r + 2),
{
}

proof fn lemma_isqrt_unique_helper(n: int, r1: int, r2: int)
    by (nonlinear_arith)
    requires
        is_isqrt(n, r1),
        is_isqrt(n, r2),
    ensures
        r1 == r2,
{
}

/// Every nonnegative integer has an integer square root.
pub proof fn lemma_isqrt_exists(n: int)
    requires
        n >= 0,
    ensures
        is_isqrt(n, isqrt(n)),
    decreases n,
{
    if n == 0 {
        assert(is_isqrt(0, 0));
    } else {
        lemma_isqrt_exists(n - 1);
        let r = isqrt(n - 1);
        if (r + 1) * (r + 1) <= n {
            lemma_square_increases(r);
            assert(is_isqrt(n, r + 1));
        } else {
            assert(is_isqrt(n, r));
        }
    }
    assert(exists|r: int| is_isqrt(n, r));
}

/// The integer square root is unique: any witness equals `isqrt(n)`.
pub proof fn lemma_isqrt_unique(n: int, r: int)
    requires
        is_isqrt(n, r),
    ensures
        r == isqrt(n),
{
    assert(n >= 0) by (nonlinear_arith)
        requires
            is_isqrt(n, r),
    ;
    lemma_isqrt_exists(n);
    lemma_isqrt_unique_helper(n, r, isqrt(n));
}

/// Fixed-point product.  `None` reports a result out of range.
pub fn fx_mul(a: i64, b: i64) -> (r: Option<i64>)
    ensures
        fx_wf(fx_mul_v(a as int, b as int)) ==> r == Some(fx_mul_v(a as int, b as int) as i64),
        !fx_wf(fx_mul_v(a as int, b as int)) ==> r is None,
{
    proof {
        assert((a as int) * (b as int) <= 0x40000000000000000000000000000000int
            && (a as int) * (b as int) >= -0x40000000000000000000000000000000int) by (nonlinear_arith)
            requires
                -0x8000000000000000int <= a as int <= 0x7fffffffffffffffint,
                -0x8000000000000000int <= b as int <= 0x7fffffffffffffffint,
        ;
    }
    let p: i128 = (a as i128) * (b as i128);
    let q: i128 = p / (FX_ONE as i128);
    if -FX_MAX as i128 <= q && q <= FX_MAX as i128 {
        Some(q as i64)
    } else {
        None
    }
}

/// Fixed-point sum.  `None` reports a result out of range.
pub fn fx_add(a: i64, b: i64) -> (r: Option<i64>)
    ensures
        fx_wf(a + b) ==> r == Some((a + b) as i64),
        !fx_wf(a + b) ==> r is None,
{
    let s: i128 = (a as i128) + (b as i128);
    if -FX_MAX as i128 <= s && s <= FX_MAX as i128 {
        Some(s as i64)
    } else {
        None
    }
}

/// Fixed-point difference.  `None` reports a result out of range.
pub fn fx_sub(a: i64, b: i64) -> (r: Option<i64>)
    ensures
        fx_wf(a - b) ==> r == Some((a - b) as i64),
        !fx_wf(a - b) ==> r is None,
{
    let s: i128 = (a as i128) - (b as i128);
    if -FX_MAX as i128 <= s && s <= FX_MAX as i128 {
        Some(s as i64)
    } else {
        None
    }
}

/// Fixed-point quotient.  Every divisor the kernel uses is positive, so a
/// divisor below one reports `None`, as does a result out of range: the
/// kernel never divides by zero.
pub fn fx_div(a: i64, b: i64) -> (r: Option<i64>)
    ensures
        b >= 1 && fx_wf(fx_div_v(a as int, b as int)) ==> r == Some(
            fx_div_v(a as int, b as int) as i64,
        ),
        !(b >= 1 && fx_wf(fx_div_v(a as int, b as int))) ==> r is None,
{
    if b < 1 {
        return None;
    }
    proof {
        assert((a as int) * (FX_ONE as int) <= 0x40000000000000000000000000000000int
            && (a as int) * (FX_ONE as int) >= -0x40000000000000000000000000000000int)
            by (nonlinear_arith)
            requires
                -0x8000000000000000int <= a as int <= 0x7fffffffffffffffint,
        ;
    }
    let p: i128 = (a as i128) * (FX_ONE as i128);
    proof {
        lemma_div_basics_5(p as int, b as int);
        lemma_div_basics_5(-(p as int), b as int);
        lemma_div_basics_4(p as int, b as int);
        lemma_div_basics_4(-(p as int), b as int);
    }
    let q: i128 = p / (b as i128);
    if -FX_MAX as i128 <= q && q <= FX_MAX as i128 {
        Some(q as i64)
    } else {
        None
    }
}

/// The lesser of two mathematical integers.
pub open spec fn imin(a: int, b: int) -> int {
    if a <= b {
        a
    } else {
        b
    }
}

/// The greater of two mathematical integers.
pub open spec fn imax(a: int, b: int) -> int {
    if a <= b {
        b
    } else {
        a
    }
}

/// Truncating division of a wide intermediate by a positive divisor.
pub fn tdiv_i128(p: i128, b: i128) -> (q: i128)
    requires
        b >= 1,
    ensures
        q as int == tdiv(p as int, b as int),
        p >= 0 ==> 0 <= q <= p,
        p < 0 ==> p <= q <= 0,
{
    proof {
        lemma_div_basics_4(p as int, b as int);
        lemma_div_basics_4(-(p as int), b as int);
        lemma_div_basics_5(p as int, b as int);
        lemma_div_basics_5(-(p as int), b as int);
    }
    p / b
}

/// The integer square root of `n`, rounded down, by bisection.
pub fn sqrt_u128(n: u128) -> (r: u128)
    ensures
        is_isqrt(n as int, r as int),
        r as int == isqrt(n as int),
{
    let mut lo: u128 = 0;
    let mut hi: u128 = 0x1_0000_0000_0000_0000;
    assert((hi as int) * (hi as int) > n as int) by (nonlinear_arith)
        requires
            hi as int == 0x1_0000_0000_0000_0000int,
            n as int <= 0xffffffffffffffffffffffffffffffffint,
    ;
    while lo + 1 < hi
        invariant
            lo < hi <= 0x1_0000_0000_0000_0000,
            (lo as int) * (lo as int) <= n as int,
            (n as int) < (hi as int) * (hi as int),
        decreases hi - lo,
    {
        let mid: u128 = lo + (hi - lo) / 2;
        proof {
            assert((mid as int) * (mid as int) <= 0xffffffffffffffffffffffffffffffffint)
                by (nonlinear_arith)
                requires
                    0 <= mid as int <= 0xffff_ffff_ffff_ffffint,
            ;
        }
        if mid * mid <= n {
            lo = mid;
        } else {
            hi = mid;
        }
    }
    proof {
        lemma_isqrt_unique(n as int, lo as int);
    }
    lo
}

} // verus!
