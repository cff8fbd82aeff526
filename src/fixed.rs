//! Fixed-point scalars: every physical quantity is an `i64` counting
//! millionths of a unit, and products and quotients round toward zero.
use vstd::prelude::*;
use vstd::arithmetic::div_mod::{lemma_div_is_ordered, lemma_div_is_ordered_by_denominator, lemma_div_pos_is_pos};

verus! {

/// Number of fixed-point steps in one whole unit.
pub const ONE: i64 = 1_000_000;

pub open spec fn abs(x: int) -> int {
    if x < 0 {
        -x
    } else {
        x
    }
}

pub open spec fn fits_i64(x: int) -> bool {
    i64::MIN <= x <= i64::MAX
}

/// `a / d` for a positive `d`, rounded toward zero.
pub open spec fn trunc_div(a: int, d: int) -> int {
    if a >= 0 {
        a / d
    } else {
        -((-a) / d)
    }
}

/// Fixed-point product of `a` and `b`.
pub open spec fn fx_mul(a: int, b: int) -> int {
    trunc_div(a * b, ONE as int)
}

/// Fixed-point quotient of `a` by a positive `b`.
pub open spec fn fx_div(a: int, b: int) -> int {
    trunc_div(a * ONE, b)
}

/// `r` is the integer square root of `x`.
pub open spec fn is_isqrt(r: int, x: int) -> bool {
    0 <= r && r * r <= x && x < (r + 1) * (r + 1)
}

/// The integer square root of a non-negative `x`.
pub open spec fn isqrt(x: int) -> int {
    choose|r: int| is_isqrt(r, x)
}

pub proof fn lemma_trunc_div_bound(a: int, d: int, bound: int)
    requires
        d > 0,
        abs(a) <= bound,
    ensures
        abs(trunc_div(a, d)) <= bound / d,
        abs(trunc_div(a, d)) == abs(a) / d,
        a >= 0 ==> trunc_div(a, d) >= 0,
        a <= 0 ==> trunc_div(a, d) <= 0,
{
    lemma_div_is_ordered(abs(a), bound, d);
    lemma_div_pos_is_pos(abs(a), d);
}

pub proof fn lemma_fx_mul_bound(a: int, b: int, ba: int, bb: int)
    requires
        abs(a) <= ba,
        abs(b) <= bb,
    ensures
        abs(fx_mul(a, b)) <= (ba * bb) / (ONE as int),
        a * b >= 0 ==> fx_mul(a, b) >= 0,
        a * b <= 0 ==> fx_mul(a, b) <= 0,
{
    assert(abs(a * b) <= ba * bb) by (nonlinear_arith)
        requires
            abs(a) <= ba,
            abs(b) <= bb,
    ;
    lemma_trunc_div_bound(a * b, ONE as int, ba * bb);
}

/// `within(a, ba)` and `within(b, bb)` bound the product by `out`.
pub proof fn lemma_fx_mul_within(a: int, b: int, ba: int, bb: int, out: int)
    requires
        abs(a) <= ba,
        abs(b) <= bb,
        ba * bb <= out * ONE,
    ensures
        abs(fx_mul(a, b)) <= out,
{
    lemma_fx_mul_bound(a, b, ba, bb);
    lemma_div_is_ordered(ba * bb, out * ONE, ONE as int);
    assert((out * ONE) / (ONE as int) == out) by (nonlinear_arith);
}

pub proof fn lemma_fx_div_bound(a: int, m: int)
    requires
        m >= ONE,
    ensures
        abs(fx_div(a, m)) <= abs(a),
        a >= 0 ==> fx_div(a, m) >= 0,
        a <= 0 ==> fx_div(a, m) <= 0,
{
    assert(abs(a * ONE) == abs(a) * ONE) by (nonlinear_arith);
    lemma_trunc_div_bound(a * ONE, m, abs(a) * ONE);
    lemma_div_is_ordered_by_denominator(abs(a) * ONE, ONE as int, m);
    assert((abs(a) * ONE) / (ONE as int) == abs(a)) by (nonlinear_arith);
}

pub proof fn lemma_isqrt_unique(r: int, x: int)
    requires
        is_isqrt(r, x),
    ensures
        isqrt(x) == r,
{
    let s = isqrt(x);
    assert(is_isqrt(s, x));
    if s < r {
        assert((s + 1) * (s + 1) <= r * r) by (nonlinear_arith)
            requires
                0 <= s < r,
        ;
    } else if r < s {
        assert((r + 1) * (r + 1) <= s * s) by (nonlinear_arith)
            requires
                0 <= r < s,
        ;
    }
}

/// The integer square root is at least the size of either component.
pub proof fn lemma_isqrt_ge_component(x: int, y: int)
    ensures
        abs(x) <= isqrt(x * x + y * y),
{
    assert(x * x + y * y >= 0) by (nonlinear_arith);
    assert(abs(x) * abs(x) == x * x) by (nonlinear_arith)
        requires
            abs(x) == x || abs(x) == -x,
    ;
    let s = x * x + y * y;
    let r = isqrt(s);
    assert(exists|q: int| is_isqrt(q, s)) by {
        let q = lemma_isqrt_exists(s);
    }
    assert(is_isqrt(r, s));
    if r < abs(x) {
        assert((r + 1) * (r + 1) <= s) by (nonlinear_arith)
            requires
                0 <= r < abs(x),
                s == x * x + y * y,
                abs(x) * abs(x) == x * x,
        ;
    }
}

/// Every non-negative integer has an integer square root.
pub proof fn lemma_isqrt_exists(x: int) -> (r: int)
    requires
        x >= 0,
    ensures
        is_isqrt(r, x),
    decreases x,
{
    if x == 0 {
        0
    } else {
        let q = lemma_isqrt_exists(x - 1);
        if (q + 1) * (q + 1) <= x {
            assert(x < (q + 2) * (q + 2)) by (nonlinear_arith)
                requires
                    x - 1 < (q + 1) * (q + 1),
                    q >= 0,
            ;
            assert(is_isqrt(q + 1, x));
            q + 1
        } else {
            assert(is_isqrt(q, x));
            q
        }
    }
}

/// Fixed-point product, rounded toward zero.
pub fn fixed_mul(a: i64, b: i64) -> (r: i64)
    requires
        fits_i64(fx_mul(a as int, b as int)),
    ensures
        r as int == fx_mul(a as int, b as int),
{
    assert(-0x4000_0000_0000_0000_0000_0000_0000_0000int <= a as int * b as int
        <= 0x4000_0000_0000_0000_0000_0000_0000_0000int) by (nonlinear_arith)
        requires
            i64::MIN <= a <= i64::MAX,
            i64::MIN <= b <= i64::MAX,
    ;
    let p: i128 = (a as i128) * (b as i128);
    let q: i128 = if p >= 0 {
        p / 1_000_000
    } else {
        -((-p) / 1_000_000)
    };
    q as i64
}

/// Fixed-point quotient of `a` by a positive `m`, rounded toward zero.
pub fn fixed_div(a: i64, m: i64) -> (r: i64)
    requires
        m > 0,
        fits_i64(fx_div(a as int, m as int)),
    ensures
        r as int == fx_div(a as int, m as int),
{
    let p: i128 = (a as i128) * 1_000_000;
    let q: i128 = if p >= 0 {
        p / (m as i128)
    } else {
        -((-p) / (m as i128))
    };
    q as i64
}

/// Integer square root by bisection.
pub fn integer_sqrt(x: u128) -> (r: u64)
    requires
        x < 0x100_0000_0000_0000_0000_0000_0000_0000,
    ensures
        is_isqrt(r as int, x as int),
        r < 0x1000_0000_0000_0000,
        r as int == isqrt(x as int),
{
    let mut lo: u128 = 0;
    let mut hi: u128 = 0x1000_0000_0000_0000;
    assert(x < hi * hi) by (nonlinear_arith)
        requires
            hi == 0x1000_0000_0000_0000,
            x < 0x100_0000_0000_0000_0000_0000_0000_0000,
    ;
    while hi - lo > 1
        invariant
            lo < hi <= 0x1000_0000_0000_0000,
            lo * lo <= x,
            x < hi * hi,
        decreases hi - lo,
    {
        let mid: u128 = lo + (hi - lo) / 2;
        assert((mid as int) * (mid as int) <= 0x100_0000_0000_0000_0000_0000_0000_0000) by (nonlinear_arith)
            requires
                0 <= mid < 0x1000_0000_0000_0000,
        ;
        if mid * mid <= x {
            lo = mid;
        } else {
            hi = mid;
        }
    }
    assert(hi == lo + 1);
    proof {
        lemma_isqrt_unique(lo as int, x as int);
    }
    lo as u64
}

} // verus!
