//! Fixed-point arithmetic shared by the geometry and the kinematics.
//!
//! Every physical quantity is an integer count of millionths of its SI unit:
//! lengths in micrometres, times in microseconds, angles in microradians,
//! velocities in micrometres per second and so on.
use vstd::prelude::*;

verus! {

/// Number of fixed-point units in one whole SI unit.
pub const SCALE: i64 = 1_000_000;

/// Half a turn, in microradians.
pub const PI_MICRO: i64 = 3_141_592;

/// A quarter turn, in microradians.
pub const HALF_PI_MICRO: i64 = 1_570_796;

/// A full turn, in microradians.
pub const TWO_PI_MICRO: i64 = 6_283_184;

/// Integer division rounding toward zero, as Rust's `/` does on signed integers.
pub open spec fn tdiv(n: int, d: int) -> int {
    if n >= 0 {
        n / d
    } else {
        -((-n) / d)
    }
}

/// Rounding toward zero never enlarges a magnitude bound.
pub proof fn lemma_tdiv_bound(n: int, d: int, b: int)
    requires
        d > 0,
        -b <= n <= b,
    ensures
        -(b / d) <= tdiv(n, d) <= b / d,
{
    if n >= 0 {
        vstd::arithmetic::div_mod::lemma_div_is_ordered(n, b, d);
        vstd::arithmetic::div_mod::lemma_div_is_ordered(0, n, d);
    } else {
        vstd::arithmetic::div_mod::lemma_div_is_ordered(-n, b, d);
        vstd::arithmetic::div_mod::lemma_div_is_ordered(0, -n, d);
    }
}

/// Bhaskara I's rational approximation of the sine on `[0, π]`, scaled by `SCALE`.
pub open spec fn bhaskara(x: int) -> int {
    let p = x * (PI_MICRO - x);
    (16 * p * SCALE) / (5 * PI_MICRO * PI_MICRO - 4 * p)
}

/// Fixed-point sine of an angle in microradians (within 0.002 of the true sine).
pub open spec fn sin_spec(h: int) -> int {
    let r = h % (TWO_PI_MICRO as int);
    if r < PI_MICRO {
        bhaskara(r)
    } else {
        -bhaskara(r - PI_MICRO)
    }
}

/// Fixed-point cosine of an angle in microradians: the sine a quarter turn ahead.
pub open spec fn cos_spec(h: int) -> int {
    sin_spec(h + HALF_PI_MICRO)
}

proof fn lemma_bhaskara_bounds(x: int)
    requires
        0 <= x <= PI_MICRO,
    ensures
        0 <= bhaskara(x) <= SCALE,
{
    let p = x * (PI_MICRO - x);
    let pi = PI_MICRO as int;
    assert(0 <= p) by (nonlinear_arith)
        requires
            0 <= x <= pi,
            p == x * (pi - x),
    ;
    assert(4 * p <= pi * pi) by (nonlinear_arith)
        requires
            p == x * (pi - x),
    ;
    let den = 5 * pi * pi - 4 * p;
    assert(den > 0);
    let num = 16 * p * SCALE;
    assert(num <= SCALE * den) by (nonlinear_arith)
        requires
            num == 16 * p * SCALE,
            den == 5 * pi * pi - 4 * p,
            4 * p <= pi * pi,
    ;
    assert(num / den <= SCALE) by (nonlinear_arith)
        requires
            num <= SCALE * den,
            den > 0,
    ;
    assert(0 <= num / den) by (nonlinear_arith)
        requires
            0 <= num,
            den > 0,
    ;
}

/// The fixed-point sine never leaves `[-SCALE, SCALE]`.
pub proof fn lemma_sin_bounds(h: int)
    ensures
        -SCALE <= sin_spec(h) <= SCALE,
{
    let r = h % (TWO_PI_MICRO as int);
    if r < PI_MICRO {
        lemma_bhaskara_bounds(r);
    } else {
        lemma_bhaskara_bounds(r - PI_MICRO);
    }
}

/// The fixed-point cosine never leaves `[-SCALE, SCALE]`.
pub proof fn lemma_cos_bounds(h: int)
    ensures
        -SCALE <= cos_spec(h) <= SCALE,
{
    lemma_sin_bounds(h + HALF_PI_MICRO);
}

fn bhaskara_exec(x: i64) -> (r: i64)
    requires
        0 <= x <= PI_MICRO,
    ensures
        r == bhaskara(x as int),
        0 <= r <= SCALE,
{
    proof {
        lemma_bhaskara_bounds(x as int);
    }
    let xi = x as i128;
    let pi = PI_MICRO as i128;
    assert(0 <= xi * (pi - xi) <= pi * pi) by (nonlinear_arith)
        requires
            0 <= xi <= pi,
    ;
    let p: i128 = xi * (pi - xi);
    let num: i128 = 16 * p * (SCALE as i128);
    let den: i128 = 5 * pi * pi - 4 * p;
    (num / den) as i64
}

/// Fixed-point sine of `h` microradians.
pub fn sin_micro(h: i64) -> (r: i64)
    ensures
        r == sin_spec(h as int),
        -SCALE <= r <= SCALE,
{
    proof {
        lemma_sin_bounds(h as int);
    }
    let m = h % TWO_PI_MICRO;
    let r = if m < 0 {
        m + TWO_PI_MICRO
    } else {
        m
    };
    assert(r == (h as int) % (TWO_PI_MICRO as int));
    if r < PI_MICRO {
        bhaskara_exec(r)
    } else {
        -bhaskara_exec(r - PI_MICRO)
    }
}

/// Fixed-point cosine of `h` microradians.
pub fn cos_micro(h: i64) -> (r: i64)
    requires
        h <= i64::MAX - HALF_PI_MICRO,
    ensures
        r == cos_spec(h as int),
        -SCALE <= r <= SCALE,
{
    sin_micro(h + HALF_PI_MICRO)
}

} // verus!
