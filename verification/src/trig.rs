//! Fixed-point trigonometry on integer angles.
//!
//! An angle is measured in units of `1 / ANGLE_TAU` of a turn (about one
//! milliradian: `ANGLE_TAU = 6284`). Sine and cosine are computed with
//! the classical quadratic rational approximation on a half turn,
//! `sin x ~ 16 x (pi - x) / (5 pi^2 - 4 x (pi - x))`, scaled to
//! `TRIG_ONE`. The approximation is exact at 0, a quarter turn and a
//! half turn, and its value provably never leaves `[-TRIG_ONE, TRIG_ONE]`.

use vstd::prelude::*;

verus! {

/// Half a turn, in angle units.
pub const ANGLE_PI: i64 = 3142;

/// A full turn, in angle units.
pub const ANGLE_TAU: i64 = 6284;

/// A quarter turn, in angle units.
pub const ANGLE_HALF_PI: i64 = 1571;

/// The fixed-point scale of trigonometric values.
pub const TRIG_ONE: i64 = 10_000;

/// Sine on the first half turn (`0 <= x <= ANGLE_PI`), scale `TRIG_ONE`.
pub open spec fn spec_sin_half(x: int) -> int {
    let y = x * (ANGLE_PI - x);
    16 * y * TRIG_ONE / (5 * (ANGLE_PI as int) * (ANGLE_PI as int) - 4 * y)
}

/// Sine of a reduced angle (`0 <= x < ANGLE_TAU`), scale `TRIG_ONE`.
pub open spec fn spec_sin(x: int) -> int {
    if x <= ANGLE_PI {
        spec_sin_half(x)
    } else {
        -spec_sin_half(x - ANGLE_PI)
    }
}

/// Euclidean reduction of any angle into `[0, ANGLE_TAU)`.
pub open spec fn spec_angle_mod(a: int) -> int {
    a % (ANGLE_TAU as int)
}

/// Cosine of a reduced angle, scale `TRIG_ONE`.
pub open spec fn spec_cos(x: int) -> int {
    spec_sin(spec_angle_mod(x + ANGLE_HALF_PI))
}

/// Reduction is the identity on an already reduced angle.
pub proof fn lemma_angle_mod_small(a: int)
    requires
        0 <= a < ANGLE_TAU,
    ensures
        spec_angle_mod(a) == a,
{
    assert(a % (ANGLE_TAU as int) == a) by (nonlinear_arith)
        requires
            0 <= a < 6284,
            ANGLE_TAU == 6284,
    ;
}

/// Reduce an angle into `[0, ANGLE_TAU)`.
pub fn angle_mod(a: i64) -> (r: i64)
    requires
        -1_000_000_000 <= a <= 1_000_000_000,
    ensures
        r == spec_angle_mod(a as int),
        0 <= r < ANGLE_TAU,
{
    let m = a % ANGLE_TAU;
    if m < 0 {
        m + ANGLE_TAU
    } else {
        m
    }
}

/// The product `x * (ANGLE_PI - x)` stays within `[0, ANGLE_HALF_PI^2]`
/// on the first half turn.
proof fn lemma_sin_arg_bounds(x: int)
    requires
        0 <= x <= ANGLE_PI,
    ensures
        0 <= x * (ANGLE_PI - x),
        x * (ANGLE_PI - x) <= (ANGLE_HALF_PI as int) * (ANGLE_HALF_PI as int),
{
    assert(0 <= x * (3142 - x) && x * (3142 - x) <= 1571 * 1571) by (nonlinear_arith)
        requires
            0 <= x <= 3142,
    ;
}

/// The half-turn sine is exact against its spec and stays within scale.
proof fn lemma_sin_half_bounds(x: int)
    requires
        0 <= x <= ANGLE_PI,
    ensures
        0 <= spec_sin_half(x) <= TRIG_ONE,
{
    lemma_sin_arg_bounds(x);
    let y = x * (ANGLE_PI - x);
    let den = 5 * (ANGLE_PI as int) * (ANGLE_PI as int) - 4 * y;
    assert(5 * (ANGLE_PI as int) * (ANGLE_PI as int) == 49_360_820) by (nonlinear_arith);
    assert(den >= 39_488_656);
    assert(16 * y * TRIG_ONE <= TRIG_ONE * den) by (nonlinear_arith)
        requires
            0 <= y <= 2_468_041,
            den == 49_360_820 - 4 * y,
            TRIG_ONE == 10_000,
    ;
    assert(0 <= 16 * y * TRIG_ONE / den <= TRIG_ONE) by (nonlinear_arith)
        requires
            0 <= 16 * y * TRIG_ONE <= TRIG_ONE * den,
            den > 0,
            TRIG_ONE == 10_000,
    ;
}

/// Sine of a reduced angle.
pub fn sin_units(x: i64) -> (r: i64)
    requires
        0 <= x < ANGLE_TAU,
    ensures
        r == spec_sin(x as int),
        -TRIG_ONE <= r <= TRIG_ONE,
{
    if x <= ANGLE_PI {
        sin_half(x)
    } else {
        -sin_half(x - ANGLE_PI)
    }
}

/// Cosine of a reduced angle.
pub fn cos_units(x: i64) -> (r: i64)
    requires
        0 <= x < ANGLE_TAU,
    ensures
        r == spec_cos(x as int),
        -TRIG_ONE <= r <= TRIG_ONE,
{
    sin_units(angle_mod(x + ANGLE_HALF_PI))
}

/// The quadratic rational sine approximation on the first half turn.
fn sin_half(x: i64) -> (r: i64)
    requires
        0 <= x <= ANGLE_PI,
    ensures
        r == spec_sin_half(x as int),
        0 <= r <= TRIG_ONE,
{
    proof {
        lemma_sin_arg_bounds(x as int);
        lemma_sin_half_bounds(x as int);
        assert(5 * (ANGLE_PI as int) * (ANGLE_PI as int) == 49_360_820) by (nonlinear_arith);
    }
    let y = x * (ANGLE_PI - x);
    let den = 5 * ANGLE_PI * ANGLE_PI - 4 * y;
    16 * y * TRIG_ONE / den
}

} // verus!
