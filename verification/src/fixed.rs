//! Fixed-point scalar arithmetic for the simulation core.
//!
//! Coordinates and speeds are `i64` milli-units. Every value the world
//! stores is kept inside `[-WORLD_LIM, WORLD_LIM]`, which keeps all the
//! products the simulation forms inside `i64`.

use vstd::prelude::*;

verus! {

/// One world unit, in milli-units.
pub const MILLI: i64 = 1000;

/// Scale of dimensionless decay factors (exponential smoothing).
pub const MICRO: i64 = 1_000_000;

/// Saturation bound on every stored coordinate and velocity component
/// (milli-units). Large enough that play never reaches it; small enough
/// that sums of three squared component differences fit in `i64`.
pub const WORLD_LIM: i64 = 800_000_000;

/// A scalar that the world may store.
pub open spec fn in_world(x: int) -> bool {
    -WORLD_LIM <= x <= WORLD_LIM
}

/// Clamp of a scalar into the storable range.
pub open spec fn spec_clamp(x: int) -> int {
    if x < -WORLD_LIM {
        -WORLD_LIM as int
    } else if x > WORLD_LIM {
        WORLD_LIM as int
    } else {
        x
    }
}

/// Saturate a computed scalar into the storable range.
pub fn clamp_world(x: i64) -> (r: i64)
    ensures
        r == spec_clamp(x as int),
        in_world(r as int),
{
    if x < -WORLD_LIM {
        -WORLD_LIM
    } else if x > WORLD_LIM {
        WORLD_LIM
    } else {
        x
    }
}

/// `x * num / den` with the division truncated toward zero, as the
/// executable arithmetic computes it.
pub open spec fn spec_mul_div(x: int, num: int, den: int) -> int {
    if x >= 0 {
        (x * num) / den
    } else {
        -((-x * num) / den)
    }
}

/// Magnitude of `x`.
pub open spec fn abs_i(x: int) -> int {
    if x >= 0 {
        x
    } else {
        -x
    }
}

/// `x * num / den`, truncated toward zero. The requires keep the
/// intermediate product inside `i64`.
pub fn mul_div(x: i64, num: i64, den: i64) -> (r: i64)
    requires
        0 <= num,
        0 < den,
        x != i64::MIN,
        abs_i(x as int) * num <= i64::MAX,
    ensures
        r == spec_mul_div(x as int, num as int, den as int),
        abs_i(r as int) * den <= abs_i(x as int) * num,
        abs_i(r as int) <= abs_i(x as int) * num,
{
    proof {
        lemma_mul_div_bounds(x as int, num as int, den as int);
    }
    if x >= 0 {
        (x * num) / den
    } else {
        -((-x * num) / den)
    }
}

/// The truncated scaled value is no larger in magnitude than the exact
/// quotient: `|spec_mul_div(x, num, den)| * den <= |x| * num`.
pub proof fn lemma_mul_div_bounds(x: int, num: int, den: int)
    requires
        0 <= num,
        0 < den,
    ensures
        abs_i(spec_mul_div(x, num, den)) * den <= abs_i(x) * num,
        abs_i(spec_mul_div(x, num, den)) <= abs_i(x) * num,
        x >= 0 ==> spec_mul_div(x, num, den) >= 0,
        x < 0 ==> spec_mul_div(x, num, den) <= 0,
{
    let a = abs_i(x) * num;
    assert(a >= 0) by (nonlinear_arith)
        requires
            num >= 0,
            abs_i(x) >= 0,
            a == abs_i(x) * num,
    ;
    let q = a / den;
    assert(q * den <= a && q >= 0) by (nonlinear_arith)
        requires
            a >= 0,
            den > 0,
            q == a / den,
    ;
    assert(q <= q * den) by (nonlinear_arith)
        requires
            q >= 0,
            den >= 1,
    ;
    if x >= 0 {
        assert(spec_mul_div(x, num, den) == q);
    } else {
        assert(spec_mul_div(x, num, den) == -q);
    }
}

/// Floor of the square root. Binary search; the search window keeps the
/// squared midpoint inside `i64`.
pub fn sqrt_floor(n: i64) -> (r: i64)
    requires
        0 <= n,
    ensures
        0 <= r,
        r * r <= n,
        n < (r + 1) * (r + 1),
        r <= 3_037_000_499,
{
    let mut lo: i64 = 0;
    let mut hi: i64 = 3_037_000_500;
    proof {
        assert(n < hi * hi) by (nonlinear_arith)
            requires
                n <= i64::MAX,
                hi == 3_037_000_500,
        ;
    }
    while lo + 1 < hi
        invariant
            0 <= lo < hi <= 3_037_000_500,
            lo * lo <= n,
            n < hi * hi,
        decreases hi - lo,
    {
        let mid: i64 = lo + (hi - lo) / 2;
        assert(lo < mid < hi);
        proof {
            assert(mid * mid <= 3_037_000_499 * 3_037_000_499) by (nonlinear_arith)
                requires
                    0 <= mid <= 3_037_000_499,
            ;
        }
        if mid * mid <= n {
            lo = mid;
        } else {
            hi = mid;
        }
    }
    lo
}

/// `s` is the least nonnegative integer whose square reaches `n`.
pub open spec fn is_sqrt_ceil(n: int, s: int) -> bool {
    0 <= s && n <= s * s && (s >= 1 ==> (s - 1) * (s - 1) < n)
}

/// The ceiling of the square root, as a mathematical value.
pub open spec fn spec_sqrt_ceil(n: int) -> int {
    choose|s: int| is_sqrt_ceil(n, s)
}

/// Every `n >= 0` has a ceiling square root, and `spec_sqrt_ceil` is it.
pub proof fn lemma_sqrt_ceil_exists(n: int)
    requires
        n >= 0,
    ensures
        is_sqrt_ceil(n, spec_sqrt_ceil(n)),
    decreases n,
{
    if n <= 0 {
        assert(is_sqrt_ceil(0, 0));
    } else {
        lemma_sqrt_ceil_exists(n - 1);
        let s = spec_sqrt_ceil(n - 1);
        if n <= s * s {
            assert(is_sqrt_ceil(n, s));
        } else {
            assert(n <= (s + 1) * (s + 1)) by (nonlinear_arith)
                requires
                    n - 1 <= s * s,
                    s >= 0,
            ;
            assert(is_sqrt_ceil(n, s + 1));
        }
    }
}

/// At most one integer satisfies `is_sqrt_ceil(n, _)`.
pub proof fn lemma_sqrt_ceil_unique(n: int, s: int)
    requires
        n >= 0,
        is_sqrt_ceil(n, s),
    ensures
        s == spec_sqrt_ceil(n),
{
    lemma_sqrt_ceil_exists(n);
    let t = spec_sqrt_ceil(n);
    if s < t {
        assert(false) by (nonlinear_arith)
            requires
                0 <= s < t,
                n <= s * s,
                t >= 1 ==> (t - 1) * (t - 1) < n,
        ;
    }
    if t < s {
        assert(false) by (nonlinear_arith)
            requires
                0 <= t < s,
                n <= t * t,
                s >= 1 ==> (s - 1) * (s - 1) < n,
        ;
    }
}

/// Ceiling of the square root: the least `r` with `n <= r * r`.
pub fn sqrt_ceil(n: i64) -> (r: i64)
    requires
        0 <= n,
    ensures
        r == spec_sqrt_ceil(n as int),
        0 <= r <= 3_037_000_500,
        n <= r * r,
        r >= 1 ==> (r - 1) * (r - 1) < n,
        r == 0 <==> n == 0,
        n >= 1 ==> 1 <= r <= n,
{
    proof {
        lemma_sqrt_ceil_exists(n as int);
    }
    let f = sqrt_floor(n);
    if f * f == n {
        proof {
            if f >= 1 {
                assert((f - 1) * (f - 1) < f * f) by (nonlinear_arith)
                    requires
                        f >= 1,
                ;
            }
            if n >= 1 {
                assert(f <= n) by (nonlinear_arith)
                    requires
                        f >= 1,
                        f * f <= n,
                ;
            }
            lemma_sqrt_ceil_unique(n as int, f as int);
        }
        f
    } else {
        proof {
            assert(f + 1 <= n) by (nonlinear_arith)
                requires
                    f >= 1 ==> (f * f < n),
                    f >= 0,
                    n > f * f,
            ;
            lemma_sqrt_ceil_unique(n as int, f + 1 as int);
        }
        f + 1
    }
}

/// `n` steps of exponential decay: `MICRO * (base / MICRO)^n`, with the
/// division truncated at every step.
pub open spec fn spec_decay(base: int, n: nat) -> int
    decreases n,
{
    if n == 0 {
        MICRO as int
    } else {
        spec_decay(base, (n - 1) as nat) * base / (MICRO as int)
    }
}

/// The decay factor stays inside `[0, MICRO]` when the base does.
pub proof fn lemma_decay_bounds(base: int, n: nat)
    requires
        0 <= base <= MICRO,
    ensures
        0 <= spec_decay(base, n) <= MICRO,
    decreases n,
{
    if n > 0 {
        lemma_decay_bounds(base, (n - 1) as nat);
        let p = spec_decay(base, (n - 1) as nat);
        assert(0 <= p * base <= MICRO * MICRO) by (nonlinear_arith)
            requires
                0 <= p <= MICRO,
                0 <= base <= MICRO,
        ;
        assert(0 <= p * base / (MICRO as int) <= MICRO) by (nonlinear_arith)
            requires
                0 <= p * base <= MICRO * MICRO,
        ;
    }
}

/// Remaining fraction (scale `MICRO`) of a per-millisecond decay factor
/// `base` after `ms` milliseconds.
pub fn decay_pow(base: i64, ms: i64) -> (r: i64)
    requires
        0 <= base <= MICRO,
        0 <= ms,
    ensures
        r == spec_decay(base as int, ms as nat),
        0 <= r <= MICRO,
{
    let mut factor: i64 = MICRO;
    let mut i: i64 = 0;
    proof {
        lemma_decay_bounds(base as int, ms as nat);
    }
    while i < ms
        invariant
            0 <= i <= ms,
            0 <= base <= MICRO,
            factor == spec_decay(base as int, i as nat),
            0 <= factor <= MICRO,
        decreases ms - i,
    {
        proof {
            lemma_decay_bounds(base as int, (i + 1) as nat);
        }
        factor = factor * base / MICRO;
        i = i + 1;
    }
    factor
}

/// Magnitudes scaled down by a common ceiling-norm stay inside the cap:
/// if `x^2 + y^2 + z^2 <= s^2`, then scaling each component by `c / s`
/// (truncated toward zero) yields a vector of norm at most `c`.
/// A squared cap value stays well inside `i64`.
pub proof fn lemma_rescale_cap_sq(c: int)
    requires
        0 <= c <= 2_000_000_000,
    ensures
        0 <= c * c <= 4_000_000_000_000_000_000,
        c >= 1 ==> c * c >= 1,
{
    assert(0 <= c * c <= 4_000_000_000_000_000_000 && (c >= 1 ==> c * c >= 1))
        by (nonlinear_arith)
        requires
            0 <= c <= 2_000_000_000,
    ;
}

/// One component of `lemma_rescale_norm`: the scaled square, weighted by
/// `s * s`, is bounded by the original square weighted by `c * c`.
proof fn lemma_rescale_component(x: int, s: int, c: int)
    requires
        s >= 1,
        c >= 0,
    ensures
        spec_mul_div(x, c, s) * spec_mul_div(x, c, s) * (s * s) <= (x * x) * (c * c),
        spec_mul_div(x, c, s) * spec_mul_div(x, c, s) >= 0,
{
    let q = abs_i(spec_mul_div(x, c, s));
    lemma_mul_div_bounds(x, c, s);
    assert(q * s <= abs_i(x) * c);
    assert(abs_i(x) * abs_i(x) == x * x) by (nonlinear_arith);
    assert(q * q * (s * s) <= (abs_i(x) * abs_i(x)) * (c * c)) by (nonlinear_arith)
        requires
            q >= 0,
            s >= 1,
            abs_i(x) >= 0,
            c >= 0,
            q * s <= abs_i(x) * c,
    ;
    let v = spec_mul_div(x, c, s);
    assert(q * q == v * v) by (nonlinear_arith)
        requires
            q == v || q == -v,
    ;
}

pub proof fn lemma_rescale_norm(x: int, y: int, z: int, s: int, c: int)
    requires
        s >= 1,
        c >= 0,
        x * x + y * y + z * z <= s * s,
    ensures
        spec_mul_div(x, c, s) * spec_mul_div(x, c, s) + spec_mul_div(y, c, s) * spec_mul_div(
            y,
            c,
            s,
        ) + spec_mul_div(z, c, s) * spec_mul_div(z, c, s) <= c * c,
{
    let qx2 = spec_mul_div(x, c, s) * spec_mul_div(x, c, s);
    let qy2 = spec_mul_div(y, c, s) * spec_mul_div(y, c, s);
    let qz2 = spec_mul_div(z, c, s) * spec_mul_div(z, c, s);
    lemma_rescale_component(x, s, c);
    lemma_rescale_component(y, s, c);
    lemma_rescale_component(z, s, c);
    let n2 = x * x + y * y + z * z;
    assert(n2 >= 0) by (nonlinear_arith)
        requires
            n2 == x * x + y * y + z * z,
    ;
    assert((qx2 + qy2 + qz2) * (s * s) == qx2 * (s * s) + qy2 * (s * s) + qz2 * (s * s))
        by (nonlinear_arith);
    assert((x * x) * (c * c) + (y * y) * (c * c) + (z * z) * (c * c) == n2 * (c * c))
        by (nonlinear_arith)
        requires
            n2 == x * x + y * y + z * z,
    ;
    assert(n2 * (c * c) <= (s * s) * (c * c)) by (nonlinear_arith)
        requires
            n2 <= s * s,
            c * c >= 0,
    ;
    assert(c * c >= 0) by (nonlinear_arith);
    assert((qx2 + qy2 + qz2) * (s * s) <= (c * c) * (s * s)) by (nonlinear_arith)
        requires
            (qx2 + qy2 + qz2) * (s * s) == qx2 * (s * s) + qy2 * (s * s) + qz2 * (s * s),
            qx2 * (s * s) <= (x * x) * (c * c),
            qy2 * (s * s) <= (y * y) * (c * c),
            qz2 * (s * s) <= (z * z) * (c * c),
            (x * x) * (c * c) + (y * y) * (c * c) + (z * z) * (c * c) == n2 * (c * c),
            n2 * (c * c) <= (s * s) * (c * c),
    ;
    assert(qx2 + qy2 + qz2 <= c * c) by (nonlinear_arith)
        requires
            (qx2 + qy2 + qz2) * (s * s) <= (c * c) * (s * s),
            s >= 1,
    ;
}

} // verus!
