//! A cosine in integer arithmetic.
//!
//! Angles are whole nanoradians, values are millionths. The angle is brought
//! into one turn, folded into the first eighth of a turn, and the cosine or
//! the sine is taken there from its power series in nested form, carried to
//! eighteen decimal places.

use vstd::arithmetic::div_mod::{lemma_fundamental_div_mod, lemma_mod_bound, lemma_mul_mod_noop_left};
use vstd::prelude::*;

verus! {

/// One, in the scale that the series are summed in.
pub const SCALE: u128 = 1_000_000_000_000_000_000;

/// One, in the scale of the values handed out: millionths.
pub const MICRO: i32 = 1_000_000;

/// Nanoradians in one radian.
pub const NANO: u128 = 1_000_000_000;

/// A full turn in units of 10^-18 radians: 2 pi, rounded.
pub const TURN_ATTORAD: u128 = 6_283_185_307_179_586_477;

/// A full turn in nanoradians, rounded down.
pub const TURN_NRAD: u128 = 6_283_185_307;

/// Half a turn in nanoradians: pi, rounded.
pub const HALF_TURN_NRAD: u128 = 3_141_592_654;

/// A quarter of a turn in nanoradians: pi / 2, rounded.
pub const QUARTER_TURN_NRAD: u128 = 1_570_796_327;

/// An eighth of a turn in nanoradians: pi / 4, rounded.
pub const EIGHTH_TURN_NRAD: u128 = 785_398_163;

/// Terms that each series is carried to, after its leading one.
pub const SERIES_DEPTH: u128 = 5;

/// The alternating series `1 - y/(k(k+1)) * (1 - y/((k+2)(k+3)) * (1 - ...))`
/// with `depth` nested factors, where `y` and the result are in units of
/// 1 / `SCALE` and each quotient is rounded down.
///
/// With `y` the square of an angle, `k = 1` gives the cosine series
/// `1 - y/2! + y^2/4! - ...`, and `k = 2` the sine series over the angle,
/// `1 - y/3! + y^2/5! - ...`.
pub open spec fn nested_series(y: int, k: int, depth: nat) -> int
    decreases depth,
{
    if depth == 0 {
        SCALE as int
    } else {
        SCALE - y * nested_series(y, k + 2, (depth - 1) as nat) / (k * (k + 1) * SCALE)
    }
}

/// Cosine of `x` nanoradians in units of 1 / `SCALE`, for `x` within an
/// eighth of a turn.
pub open spec fn cos_octant(x: int) -> int {
    nested_series(x * x, 1, SERIES_DEPTH as nat)
}

/// Sine of `x` nanoradians in units of 1 / `SCALE`, for `x` within an eighth
/// of a turn.
pub open spec fn sin_octant(x: int) -> int {
    x * nested_series(x * x, 2, SERIES_DEPTH as nat) / (NANO as int)
}

/// `value`, in units of 1 / `SCALE`, rounded to the nearest millionth.
pub open spec fn round_to_micro(value: int) -> int {
    (value + 500_000_000_000) / 1_000_000_000_000
}

/// Cosine of `q` nanoradians in millionths, for `q` within a quarter of a
/// turn: past an eighth of a turn it is the sine of what is left to the
/// quarter.
pub open spec fn cos_quarter(q: int) -> int {
    if q <= EIGHTH_TURN_NRAD {
        round_to_micro(cos_octant(q))
    } else {
        round_to_micro(sin_octant(QUARTER_TURN_NRAD - q))
    }
}

/// Where `angle` nanoradians falls within one turn, in nanoradians.
pub open spec fn turn_phase(angle: nat) -> int {
    (angle * NANO) % (TURN_ATTORAD as int) / (NANO as int)
}

/// Cosine of `angle` nanoradians, in millionths.
///
/// The second half of the turn mirrors the first, and the second quarter is
/// the first with the sign turned.
pub open spec fn cos_micro(angle: nat) -> int {
    let phase = turn_phase(angle);
    let mirrored = if phase > HALF_TURN_NRAD {
        TURN_NRAD - phase
    } else {
        phase
    };
    if mirrored <= QUARTER_TURN_NRAD {
        cos_quarter(mirrored)
    } else {
        -cos_quarter(HALF_TURN_NRAD - mirrored)
    }
}

/// A nested series of a square that is at most one stays between zero and one.
pub proof fn lemma_nested_series_bounds(y: int, k: int, depth: nat)
    requires
        0 <= y <= SCALE,
        k >= 1,
    ensures
        0 <= nested_series(y, k, depth) <= SCALE,
    decreases depth,
{
    if depth > 0 {
        let inner = nested_series(y, k + 2, (depth - 1) as nat);
        lemma_nested_series_bounds(y, k + 2, (depth - 1) as nat);
        lemma_step_bounds(y, inner, k);
    }
}

/// One nested factor: the quotient `y * inner / (k (k + 1) SCALE)` lies
/// between zero and one.
proof fn lemma_step_bounds(y: int, inner: int, k: int)
    requires
        0 <= y <= SCALE,
        0 <= inner <= SCALE,
        k >= 1,
    ensures
        0 <= y * inner <= SCALE * SCALE,
        k * (k + 1) * SCALE >= SCALE,
        0 <= y * inner / (k * (k + 1) * SCALE) <= SCALE,
{
    let s = SCALE as int;
    let d = k * (k + 1) * s;
    assert(0 <= y * inner <= s * s) by (nonlinear_arith)
        requires
            0 <= y <= s,
            0 <= inner <= s,
    ;
    assert(d >= s) by (nonlinear_arith)
        requires
            d == k * (k + 1) * s,
            k >= 1,
            s > 0,
    ;
    assert(0 <= (y * inner) / d <= s) by (nonlinear_arith)
        requires
            0 <= y * inner <= s * s,
            d >= s,
            s > 0,
    ;
}

/// Denominator of the exact value of the series `nested_series(_, k, depth)`,
/// the one with no quotient rounded: see `exact_series_num`.
pub open spec fn exact_series_den(k: int, depth: nat) -> int
    decreases depth,
{
    if depth == 0 {
        1
    } else {
        k * (k + 1) * SCALE * exact_series_den(k + 2, (depth - 1) as nat)
    }
}

/// Numerator of the exact value of the series: the fraction
/// `exact_series_num(y, k, depth) / exact_series_den(k, depth)` is
/// `SCALE - y * inner / (k (k + 1) SCALE)` with `inner` the exact value one
/// level further in, and `SCALE` with no level left.
pub open spec fn exact_series_num(y: int, k: int, depth: nat) -> int
    decreases depth,
{
    if depth == 0 {
        SCALE as int
    } else {
        SCALE * exact_series_den(k, depth) - y * exact_series_num(y, k + 2, (depth - 1) as nat)
    }
}

/// The exact value's denominator is positive.
pub proof fn lemma_exact_series_den_positive(k: int, depth: nat)
    requires
        k >= 1,
    ensures
        exact_series_den(k, depth) >= 1,
    decreases depth,
{
    if depth > 0 {
        lemma_exact_series_den_positive(k + 2, (depth - 1) as nat);
        let inner = exact_series_den(k + 2, (depth - 1) as nat);
        let s = SCALE as int;
        assert(k * (k + 1) * s * inner >= 1) by (nonlinear_arith)
            requires
                k >= 1,
                s >= 1,
                inner >= 1,
        ;
    }
}

/// Rounding the quotients down costs little: the series as it is summed
/// differs from its exact value by at most two units of 1 / `SCALE`.
pub proof fn lemma_nested_series_near_exact(y: int, k: int, depth: nat)
    requires
        0 <= y <= SCALE,
        k >= 1,
    ensures
        -2 * exact_series_den(k, depth) <= nested_series(y, k, depth) * exact_series_den(k, depth)
            - exact_series_num(y, k, depth) <= 2 * exact_series_den(k, depth),
    decreases depth,
{
    if depth > 0 {
        let inner = nested_series(y, k + 2, (depth - 1) as nat);
        let inner_den = exact_series_den(k + 2, (depth - 1) as nat);
        let inner_num = exact_series_num(y, k + 2, (depth - 1) as nat);
        lemma_nested_series_near_exact(y, k + 2, (depth - 1) as nat);
        lemma_nested_series_bounds(y, k + 2, (depth - 1) as nat);
        lemma_exact_series_den_positive(k + 2, (depth - 1) as nat);
        lemma_step_bounds(y, inner, k);
        let s = SCALE as int;
        let divisor = k * (k + 1) * s;
        let quotient = y * inner / divisor;
        lemma_fundamental_div_mod(y * inner, divisor);
        lemma_mod_bound(y * inner, divisor);
        assert(divisor * quotient <= y * inner < divisor * quotient + divisor);
        assert(2 * y <= divisor) by (nonlinear_arith)
            requires
                divisor == k * (k + 1) * s,
                k >= 1,
                0 <= y <= s,
        ;
        let inner_gap = inner * inner_den - inner_num;
        let den = divisor * inner_den;
        let num = s * den - y * inner_num;
        let value = s - quotient;
        let product = y * inner;
        let floor = divisor * quotient;
        assert(value * den == s * den - quotient * den) by (nonlinear_arith)
            requires
                value == s - quotient,
        ;
        assert(quotient * den == floor * inner_den) by (nonlinear_arith)
            requires
                den == divisor * inner_den,
                floor == divisor * quotient,
        ;
        assert(y * inner_num == product * inner_den - y * inner_gap) by (nonlinear_arith)
            requires
                inner_gap == inner * inner_den - inner_num,
                product == y * inner,
        ;
        assert(product * inner_den - floor * inner_den == (product - floor) * inner_den)
            by (nonlinear_arith);
        assert(value * den - num == (product - floor) * inner_den - y * inner_gap);
        let slack = y * inner - divisor * quotient;
        assert(0 <= slack * inner_den <= den) by (nonlinear_arith)
            requires
                0 <= slack < divisor,
                inner_den >= 1,
                den == divisor * inner_den,
        ;
        assert(-den <= y * inner_gap <= den) by (nonlinear_arith)
            requires
                -2 * inner_den <= inner_gap <= 2 * inner_den,
                0 <= y,
                2 * y <= divisor,
                inner_den >= 1,
                den == divisor * inner_den,
        ;
    }
}

/// Within an eighth of a turn both series give a value between zero and one.
pub proof fn lemma_octant_bounds(x: int)
    requires
        0 <= x <= EIGHTH_TURN_NRAD,
    ensures
        0 <= cos_octant(x) <= SCALE,
        0 <= sin_octant(x) <= SCALE,
{
    let y = x * x;
    assert(0 <= y <= SCALE) by (nonlinear_arith)
        requires
            0 <= x <= 785_398_163,
            y == x * x,
            SCALE == 1_000_000_000_000_000_000,
    ;
    lemma_nested_series_bounds(y, 1, SERIES_DEPTH as nat);
    lemma_nested_series_bounds(y, 2, SERIES_DEPTH as nat);
    let series = nested_series(y, 2, SERIES_DEPTH as nat);
    assert(0 <= x * series / (NANO as int) <= SCALE) by (nonlinear_arith)
        requires
            0 <= x <= 1_000_000_000,
            0 <= series <= SCALE,
            NANO == 1_000_000_000,
    ;
}

/// The cosine never leaves the range from minus one to one.
pub proof fn lemma_cos_micro_bounds(angle: nat)
    ensures
        -MICRO <= cos_micro(angle) <= MICRO,
{
    let phase = turn_phase(angle);
    let mirrored = if phase > HALF_TURN_NRAD {
        TURN_NRAD - phase
    } else {
        phase
    };
    let q = if mirrored <= QUARTER_TURN_NRAD {
        mirrored
    } else {
        HALF_TURN_NRAD - mirrored
    };
    lemma_cos_quarter_bounds(q);
}

/// Within a quarter of a turn the cosine lies between zero and one.
pub proof fn lemma_cos_quarter_bounds(q: int)
    requires
        0 <= q <= QUARTER_TURN_NRAD,
    ensures
        0 <= cos_quarter(q) <= MICRO,
{
    if q <= EIGHTH_TURN_NRAD {
        lemma_octant_bounds(q);
    } else {
        lemma_octant_bounds(QUARTER_TURN_NRAD - q);
    }
}

/// At angle zero the cosine is exactly one.
pub proof fn lemma_cos_micro_at_zero()
    ensures
        cos_micro(0) == MICRO,
{
    reveal_with_fuel(nested_series, 6);
    assert(cos_octant(0) == SCALE);
}

/// Sums the nested series from its innermost factor outwards.
fn eval_series(y: u128, first: u128) -> (sum: u128)
    requires
        y <= SCALE,
        first == 1 || first == 2,
    ensures
        sum == nested_series(y as int, first as int, SERIES_DEPTH as nat),
        sum <= SCALE,
{
    let mut sum: u128 = SCALE;
    let mut done: u128 = 0;
    while done < SERIES_DEPTH
        invariant
            done <= SERIES_DEPTH,
            y <= SCALE,
            first == 1 || first == 2,
            sum <= SCALE,
            sum == nested_series(y as int, first + 2 * (SERIES_DEPTH - done), done as nat),
        decreases SERIES_DEPTH - done,
    {
        let k: u128 = first + 2 * (SERIES_DEPTH - 1 - done);
        proof {
            lemma_step_bounds(y as int, sum as int, k as int);
            assert(k * (k + 1) <= 132) by (nonlinear_arith)
                requires
                    1 <= k <= 10,
            ;
        }
        let divisor: u128 = k * (k + 1) * SCALE;
        let quotient: u128 = y * sum / divisor;
        sum = SCALE - quotient;
        done += 1;
    }
    sum
}

/// Cosine within an eighth of a turn, in units of 1 / `SCALE`.
fn cos_octant_exec(x: u128) -> (value: u128)
    requires
        x <= EIGHTH_TURN_NRAD,
    ensures
        value == cos_octant(x as int),
        value <= SCALE,
{
    proof {
        assert(x * x <= SCALE) by (nonlinear_arith)
            requires
                0 <= x <= 785_398_163,
                SCALE == 1_000_000_000_000_000_000,
        ;
    }
    eval_series(x * x, 1)
}

/// Sine within an eighth of a turn, in units of 1 / `SCALE`.
fn sin_octant_exec(x: u128) -> (value: u128)
    requires
        x <= EIGHTH_TURN_NRAD,
    ensures
        value == sin_octant(x as int),
        value <= SCALE,
{
    proof {
        assert(x * x <= SCALE) by (nonlinear_arith)
            requires
                0 <= x <= 785_398_163,
                SCALE == 1_000_000_000_000_000_000,
        ;
        lemma_octant_bounds(x as int);
    }
    let series: u128 = eval_series(x * x, 2);
    proof {
        assert(x * series <= 1_000_000_000 * SCALE) by (nonlinear_arith)
            requires
                0 <= x <= 1_000_000_000,
                0 <= series <= SCALE,
        ;
    }
    x * series / NANO
}

/// Cosine within a quarter of a turn, in millionths.
fn cos_quarter_exec(q: u128) -> (value: i32)
    requires
        q <= QUARTER_TURN_NRAD,
    ensures
        value == cos_quarter(q as int),
        0 <= value <= MICRO,
{
    proof {
        lemma_cos_quarter_bounds(q as int);
    }
    let scaled: u128 = if q <= EIGHTH_TURN_NRAD {
        cos_octant_exec(q)
    } else {
        sin_octant_exec(QUARTER_TURN_NRAD - q)
    };
    ((scaled + 500_000_000_000) / 1_000_000_000_000) as i32
}

/// Cosine of `angle_nrad` nanoradians, in millionths.
pub fn cosine_micro(angle_nrad: u128) -> (value: i32)
    ensures
        value == cos_micro(angle_nrad as nat),
        -MICRO <= value <= MICRO,
{
    proof {
        lemma_mul_mod_noop_left(angle_nrad as int, NANO as int, TURN_ATTORAD as int);
        lemma_cos_micro_bounds(angle_nrad as nat);
    }
    let reduced: u128 = angle_nrad % TURN_ATTORAD;
    let phase: u128 = (reduced * NANO) % TURN_ATTORAD / NANO;
    let mirrored: u128 = if phase > HALF_TURN_NRAD {
        TURN_NRAD - phase
    } else {
        phase
    };
    if mirrored <= QUARTER_TURN_NRAD {
        cos_quarter_exec(mirrored)
    } else {
        -cos_quarter_exec(HALF_TURN_NRAD - mirrored)
    }
}

} // verus!
