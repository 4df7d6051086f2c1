//! Saturating fixed-point scalars.
//!
//! A scalar is an `i64` holding the real number `raw / ONE`. Every operation
//! rounds toward negative infinity and then saturates to `[-LIMIT, LIMIT]`,
//! so no operation can overflow and every result has an exact description
//! over mathematical integers.
use vstd::prelude::*;
use vstd::arithmetic::div_mod::{lemma_fundamental_div_mod, lemma_fundamental_div_mod_converse, lemma_mod_pos_bound};

verus! {

/// The scalar 1.0.
pub const ONE: i64 = 65536;

/// Largest magnitude of a saturated result (2^40 raw units, 2^24 world units).
pub const LIMIT: i64 = 1099511627776;

/// Saturation to `[-LIMIT, LIMIT]`.
pub open spec fn sat(v: int) -> int {
    if v > LIMIT {
        LIMIT as int
    } else if v < -LIMIT {
        -LIMIT
    } else {
        v
    }
}

pub open spec fn sum_fx(a: int, b: int) -> int {
    sat(a + b)
}

pub open spec fn diff_fx(a: int, b: int) -> int {
    sat(a - b)
}

pub open spec fn neg_fx(a: int) -> int {
    sat(-a)
}

/// Product, rounded down.
pub open spec fn prod_fx(a: int, b: int) -> int {
    sat((a * b) / (ONE as int))
}

/// Quotient, rounded down; a zero divisor gives 0.
pub open spec fn quot_fx(a: int, b: int) -> int {
    if b > 0 {
        sat((a * ONE) / b)
    } else if b < 0 {
        sat((-a * ONE) / (-b))
    } else {
        0
    }
}

pub open spec fn max_fx(a: int, b: int) -> int {
    if a >= b {
        a
    } else {
        b
    }
}

/// Largest `r` with `r * r <= n`.
pub open spec fn isqrt(n: nat) -> nat
    decreases n,
{
    if n == 0 {
        0
    } else {
        let r = isqrt((n - 1) as nat);
        if (r + 1int) * (r + 1int) <= n {
            r + 1
        } else {
            r
        }
    }
}

/// Square root, rounded down; 0 for non-positive arguments.
pub open spec fn root_fx(a: int) -> int {
    if a <= 0 {
        0
    } else {
        isqrt((a * ONE) as nat) as int
    }
}

/// `b` raised to the natural power `e` by repeated rounded products.
pub open spec fn power_fx(b: int, e: nat) -> int
    decreases e,
{
    if e == 0 {
        ONE as int
    } else {
        prod_fx(power_fx(b, (e - 1) as nat), b)
    }
}

pub proof fn lemma_isqrt_bounds(n: nat)
    ensures
        (isqrt(n) as int) * (isqrt(n) as int) <= n,
        n < (isqrt(n) + 1int) * (isqrt(n) + 1int),
    decreases n,
{
    if n > 0 {
        let m = (n - 1) as nat;
        lemma_isqrt_bounds(m);
        let r = isqrt(m);
        if (r + 1) * (r + 1) <= n {
            assert(isqrt(n) == r + 1);
            assert(n <= (r + 1) * (r + 1));
            assert((r + 1) * (r + 1) < (r + 1 + 1) * (r + 1 + 1)) by (nonlinear_arith);
            let s = isqrt(n);
            assert(s * s <= n && n < (s + 1) * (s + 1));
        } else {
            assert(isqrt(n) == r);
            assert(r * r <= n);
        }
    } else {
        assert(isqrt(n) == 0);
    }
}

pub proof fn lemma_isqrt_unique(n: nat, r: nat)
    requires
        (r as int) * (r as int) <= n,
        n < (r + 1int) * (r + 1int),
    ensures
        r == isqrt(n),
{
    lemma_isqrt_bounds(n);
    let s = isqrt(n);
    if r < s {
        assert((r + 1) * (r + 1) <= s * s) by (nonlinear_arith)
            requires
                r + 1 <= s,
        ;
    }
    if s < r {
        assert((s + 1) * (s + 1) <= r * r) by (nonlinear_arith)
            requires
                s + 1 <= r,
        ;
    }
}

fn saturate(v: i128) -> (r: i64)
    ensures
        r == sat(v as int),
{
    if v > LIMIT as i128 {
        LIMIT
    } else if v < -(LIMIT as i128) {
        -LIMIT
    } else {
        v as i64
    }
}

/// Division rounded toward negative infinity, by a positive divisor.
fn floor_div(n: i128, d: i128) -> (q: i128)
    requires
        0 < d <= 0x1_0000_0000_0000_0000,
        -0x4000_0000_0000_0000_0000_0000_0000_0000 <= n <= 0x4000_0000_0000_0000_0000_0000_0000_0000,
    ensures
        q == n / d,
{
    if n >= 0 {
        n / d
    } else {
        let m: i128 = -n;
        let c: i128 = (m + d - 1) / d;
        proof {
            let x = (m + d - 1) as int;
            lemma_fundamental_div_mod(x, d as int);
            lemma_mod_pos_bound(x, d as int);
            let rem = x % (d as int);
            assert(n == (-c) * d + (d - 1 - rem)) by (nonlinear_arith)
                requires
                    x == d * c + rem,
                    x == m + d - 1,
                    n == -m,
            ;
            lemma_fundamental_div_mod_converse(n as int, d as int, -c, d - 1 - rem);
        }
        -c
    }
}

pub fn fx_add(a: i64, b: i64) -> (r: i64)
    ensures
        r == sum_fx(a as int, b as int),
{
    saturate(a as i128 + b as i128)
}

pub fn fx_sub(a: i64, b: i64) -> (r: i64)
    ensures
        r == diff_fx(a as int, b as int),
{
    saturate(a as i128 - b as i128)
}

pub fn fx_neg(a: i64) -> (r: i64)
    ensures
        r == neg_fx(a as int),
{
    saturate(-(a as i128))
}

pub fn fx_max(a: i64, b: i64) -> (r: i64)
    ensures
        r == max_fx(a as int, b as int),
{
    if a >= b {
        a
    } else {
        b
    }
}

pub fn fx_mul(a: i64, b: i64) -> (r: i64)
    ensures
        r == prod_fx(a as int, b as int),
{
    let wa = a as i128;
    let wb = b as i128;
    proof {
        let bound: int = 0x8000_0000_0000_0000;
        assert(-(bound * bound) <= wa * wb <= bound * bound) by (nonlinear_arith)
            requires
                -bound <= wa <= bound,
                -bound <= wb <= bound,
        ;
    }
    let p: i128 = wa * wb;
    saturate(floor_div(p, ONE as i128))
}

pub fn fx_div(a: i64, b: i64) -> (r: i64)
    requires
        b != 0,
    ensures
        r == quot_fx(a as int, b as int),
{
    proof {
        let bound: int = 0x8000_0000_0000_0000;
        assert(-(bound * 65536) <= a * 65536 <= bound * 65536) by (nonlinear_arith)
            requires
                -bound <= a <= bound,
        ;
    }
    let n: i128 = (a as i128) * (ONE as i128);
    if b > 0 {
        saturate(floor_div(n, b as i128))
    } else {
        saturate(floor_div(-n, -(b as i128)))
    }
}

/// Integer division of `a` by a positive `d`, rounded toward negative infinity.
pub fn fx_floor_div(a: i64, d: i64) -> (r: i64)
    requires
        d > 0,
    ensures
        r == a / d,
{
    let q = floor_div(a as i128, d as i128);
    proof {
        lemma_fundamental_div_mod(a as int, d as int);
        lemma_mod_pos_bound_any(a as int, d as int);
        let m = (a as int) % (d as int);
        assert(a < 0 ==> a <= q < 0) by (nonlinear_arith)
            requires
                a == d * q + m,
                0 <= m < d,
                d >= 1,
        ;
        assert(a >= 0 ==> 0 <= q <= a) by (nonlinear_arith)
            requires
                a == d * q + m,
                0 <= m < d,
                d >= 1,
        ;
    }
    q as i64
}

proof fn lemma_mod_pos_bound_any(x: int, d: int)
    requires
        d > 0,
    ensures
        0 <= x % d < d,
{
}

/// Integer square root of `n < 2^80` by bisection.
fn isqrt_exec(n: u128) -> (r: u128)
    requires
        n < 0x1_0000_0000_0000_0000_0000,
    ensures
        r == isqrt(n as nat),
        r < 0x100_0000_0000,
{
    let mut lo: u128 = 0;
    let mut hi: u128 = 0x100_0000_0000;
    assert(hi * hi == 0x1_0000_0000_0000_0000_0000);
    while hi - lo > 1
        invariant
            lo < hi <= 0x100_0000_0000,
            lo * lo <= n,
            n < hi * hi,
        decreases hi - lo,
    {
        let mid: u128 = lo + (hi - lo) / 2;
        assert(mid * mid <= 0x1_0000_0000_0000_0000_0000) by (nonlinear_arith)
            requires
                mid <= 0x100_0000_0000,
        ;
        if mid * mid <= n {
            lo = mid;
        } else {
            hi = mid;
        }
    }
    proof {
        lemma_isqrt_unique(n as nat, lo as nat);
    }
    lo
}

pub fn fx_sqrt(a: i64) -> (r: i64)
    ensures
        r == root_fx(a as int),
        r >= 0,
{
    if a <= 0 {
        0
    } else {
        assert(a * 65536 < 0x1_0000_0000_0000_0000_0000) by (nonlinear_arith)
            requires
                0 < a < 0x8000_0000_0000_0000,
        ;
        let n: u128 = (a as u128) * (ONE as u128);
        (isqrt_exec(n)) as i64
    }
}

pub fn fx_pow(b: i64, e: u32) -> (r: i64)
    ensures
        r == power_fx(b as int, e as nat),
{
    let mut acc: i64 = ONE;
    let mut i: u32 = 0;
    while i < e
        invariant
            i <= e,
            acc == power_fx(b as int, i as nat),
        decreases e - i,
    {
        acc = fx_mul(acc, b);
        i = i + 1;
    }
    acc
}

} // verus!
