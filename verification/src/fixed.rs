//! Fixed-point numbers.
//!
//! Every quantity of the simulation (a coordinate, a radius, a coefficient)
//! is an `i64` that counts millionths: the number one is [`SCALE`].
//! The operations are specified over `int`, where nothing overflows.
//! Quotients round toward zero, so that negating an operand negates the
//! result. A result that leaves the range of `i64` saturates: it becomes the
//! nearest value that the type can hold.

use vstd::prelude::*;

verus! {

/// The fixed-point representation of the number one.
pub const SCALE: i64 = 1_000_000;

/// The value nearest to `v` that an `i64` can hold.
pub open spec fn clamp(v: int) -> i64 {
    if v < i64::MIN {
        i64::MIN
    } else if v > i64::MAX {
        i64::MAX
    } else {
        v as i64
    }
}

/// The absolute value.
pub open spec fn magnitude(v: int) -> int {
    if v < 0 {
        -v
    } else {
        v
    }
}

/// `a / b` rounded toward zero (for `b != 0`).
pub open spec fn quotient(a: int, b: int) -> int {
    if b > 0 {
        if a >= 0 {
            a / b
        } else {
            -((-a) / b)
        }
    } else {
        if a >= 0 {
            -(a / (-b))
        } else {
            (-a) / (-b)
        }
    }
}

/// The fixed-point product of two fixed-point numbers.
pub open spec fn product(a: int, b: int) -> int {
    quotient(a * b, SCALE as int)
}

/// Whether `r` is the square root of `n`, rounded down.
pub open spec fn is_root(r: int, n: int) -> bool {
    0 <= r && r * r <= n < (r + 1) * (r + 1)
}

/// The square root of `n`, rounded down (for `n >= 0`).
pub open spec fn root(n: int) -> int {
    choose|r: int| is_root(r, n)
}

/// Every natural number has a rounded-down square root, and `root` names it.
pub proof fn lemma_root(n: int)
    requires
        0 <= n,
    ensures
        is_root(root(n), n),
    decreases n,
{
    if n == 0 {
        assert(is_root(0, 0));
    } else {
        lemma_root(n - 1);
        let r = root(n - 1);
        if (r + 1) * (r + 1) <= n {
            assert(n < (r + 2) * (r + 2)) by (nonlinear_arith)
                requires
                    0 <= r,
                    n - 1 < (r + 1) * (r + 1),
            ;
            assert(is_root(r + 1, n));
        } else {
            assert(is_root(r, n));
        }
    }
}

/// No number but `root(n)` is the rounded-down square root of `n`.
pub proof fn lemma_root_is(r: int, n: int)
    requires
        is_root(r, n),
    ensures
        root(n) == r,
{
    let s = root(n);
    assert(r == s) by (nonlinear_arith)
        requires
            0 <= r,
            0 <= s,
            r * r <= n,
            n < (r + 1) * (r + 1),
            s * s <= n,
            n < (s + 1) * (s + 1),
    ;
}

/// A number lies below a square exactly where its rounded-down square root
/// lies below the base.
pub proof fn lemma_root_below(n: int, b: int)
    requires
        0 <= n,
        0 <= b,
    ensures
        root(n) < b <==> n < b * b,
{
    lemma_root(n);
    let r = root(n);
    assert(r < b ==> n < b * b) by (nonlinear_arith)
        requires
            0 <= r,
            0 <= b,
            n < (r + 1) * (r + 1),
    ;
    assert(n < b * b ==> r < b) by (nonlinear_arith)
        requires
            0 <= r,
            0 <= b,
            r * r <= n,
    ;
}

/// Brings a wide value into the range of `i64`.
pub fn saturate(v: i128) -> (r: i64)
    ensures
        r == clamp(v as int),
{
    if v < i64::MIN as i128 {
        i64::MIN
    } else if v > i64::MAX as i128 {
        i64::MAX
    } else {
        v as i64
    }
}

/// Divides, rounding toward zero. The one quotient that does not fit, that
/// of the least number by minus one, is left out.
pub fn divide(a: i128, b: i128) -> (r: i128)
    requires
        b != 0,
        a != i128::MIN || b != -1,
    ensures
        r == quotient(a as int, b as int),
{
    let n: u128 = if a < 0 { (-(a + 1)) as u128 + 1 } else { a as u128 };
    let d: u128 = if b < 0 { (-(b + 1)) as u128 + 1 } else { b as u128 };
    let q: u128 = n / d;
    assert(q <= n && (d >= 2 ==> 2 * q <= n)) by (nonlinear_arith)
        requires
            q == n / d,
            0 <= n,
            0 < d,
    ;
    if (a < 0) == (b < 0) {
        q as i128
    } else if q == 0x8000_0000_0000_0000_0000_0000_0000_0000 {
        i128::MIN
    } else {
        -(q as i128)
    }
}

/// Multiplies, divides by `c` rounding toward zero, and saturates the result.
pub fn multiply_divide(a: i128, b: i128, c: i128) -> (r: i64)
    requires
        0 < c <= 0x1_0000_0000_0000_0000,
    ensures
        r == clamp(quotient(a * b, c as int)),
{
    match a.checked_mul(b) {
        Some(p) => saturate(divide(p, c)),
        None => {
            proof {
                lemma_product_sign(a as int, b as int);
                lemma_wide_quotient(a * b, c as int);
            }
            if (a < 0) == (b < 0) {
                i64::MAX
            } else {
                i64::MIN
            }
        },
    }
}

/// Multiplies two fixed-point numbers and saturates the product.
pub fn multiply(a: i128, b: i128) -> (r: i64)
    ensures
        r == clamp(product(a as int, b as int)),
{
    multiply_divide(a, b, SCALE as i128)
}

/// A product is negative only where its factors differ in sign.
proof fn lemma_product_sign(a: int, b: int)
    ensures
        (a < 0) == (b < 0) ==> a * b >= 0,
        (a < 0) != (b < 0) ==> a * b <= 0,
{
    assert((a < 0) == (b < 0) ==> a * b >= 0) by (nonlinear_arith);
    assert((a < 0) != (b < 0) ==> a * b <= 0) by (nonlinear_arith);
}

/// A dividend of more than 128 bits, over a divisor of at most 65 bits,
/// leaves a quotient that saturates.
proof fn lemma_wide_quotient(p: int, c: int)
    requires
        0 < c <= 0x1_0000_0000_0000_0000,
        p > i128::MAX || p < i128::MIN,
    ensures
        p > 0 ==> clamp(quotient(p, c)) == i64::MAX,
        p < 0 ==> clamp(quotient(p, c)) == i64::MIN,
{
    let m = magnitude(p);
    assert(m / c >= 0x8000_0000_0000_0000) by (nonlinear_arith)
        requires
            m >= 0x8000_0000_0000_0000_0000_0000_0000_0000,
            0 < c <= 0x1_0000_0000_0000_0000,
    ;
}

/// The square root of `n`, rounded down, for an `n` known to lie below the
/// square of `bound`.
pub fn sqrt_below(n: u128, bound: u128) -> (r: u64)
    requires
        bound <= 0x1_0000_0000_0000_0000,
        n < bound * bound,
    ensures
        r == root(n as int),
        r < bound,
{
    let mut lo: u128 = 0;
    let mut hi: u128 = bound;
    while hi - lo > 1
        invariant
            lo < hi <= bound <= 0x1_0000_0000_0000_0000,
            lo * lo <= n,
            n < hi * hi,
        decreases hi - lo,
    {
        let mid: u128 = lo + (hi - lo) / 2;
        assert(mid * mid < 0x1_0000_0000_0000_0000_0000_0000_0000_0000) by (nonlinear_arith)
            requires
                mid < 0x1_0000_0000_0000_0000,
        ;
        if mid * mid <= n {
            lo = mid;
        } else {
            hi = mid;
        }
    }
    proof {
        lemma_root_is(lo as int, n as int);
    }
    lo as u64
}

/// The square root of `n`, rounded down.
pub fn sqrt(n: u128) -> (r: u64)
    ensures
        r == root(n as int),
{
    sqrt_below(n, 0x1_0000_0000_0000_0000)
}

} // verus!
