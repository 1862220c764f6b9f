use vstd::prelude::*;
use vstd::math::abs;

verus! {

/// Sub-units in one world unit: every length is counted in these.
pub const UNIT: i128 = 1000;

/// Microseconds in one second: every duration is counted in these.
pub const MICROS_PER_SECOND: i128 = 1_000_000;

/// Largest magnitude that any coordinate, velocity or counter may hold before a tick.
pub const COORD_LIMIT: i128 = 0x100_0000_0000;

/// Longest frame duration a tick accepts, in microseconds (a little over an hour).
pub const MAX_DELTA_MICROS: i128 = 0x1_0000_0000;

/// Magnitude below which the intermediate values of a tick are kept; far
/// above anything a tick that starts within `COORD_LIMIT` produces, and far
/// enough below `i128::MAX` that sums of a few of them still fit.
pub const WIDE_LIMIT: i128 = 0x1000_0000_0000_0000_0000_0000_0000;

/// Screen x at which the camera starts following the player.
pub const FOLLOW_THRESHOLD: i128 = 320 * UNIT;

/// Integer quotient rounded toward zero, as a cast of the exact quotient would.
pub open spec fn div_toward_zero(a: int, d: int) -> int {
    if a >= 0 {
        a / d
    } else {
        -((-a) / d)
    }
}

/// Quotient rounded toward zero.
pub fn divide_toward_zero(a: i128, d: i128) -> (r: i128)
    requires
        d > 0,
        a > i128::MIN,
    ensures
        r == div_toward_zero(a as int, d as int),
{
    if a >= 0 {
        a / d
    } else {
        let n: i128 = -a;
        -(n / d)
    }
}

/// Magnitude limit of the first factor of `scale_toward_zero`.
pub const FACTOR_LIMIT: i128 = 0x1_0000_0000_0000_0000;

/// Scaling `a` by a duration of at most `MAX_DELTA_MICROS` and a ratio
/// `mult / den` of at most one millionth gives at most 4295 times `|a|`.
pub proof fn lemma_scaled_bound(a: int, dt: int, mult: int, den: int)
    requires
        -FACTOR_LIMIT <= a <= FACTOR_LIMIT,
        0 <= dt <= MAX_DELTA_MICROS,
        0 <= mult <= 1000,
        0 < den,
        MICROS_PER_SECOND * mult <= den,
    ensures
        -0x1_0000_0000_0000_0000_0000_0000 <= a * dt <= 0x1_0000_0000_0000_0000_0000_0000,
        -0x1_0000_0000_0000_0000_0000_0000_0000 <= a * dt * mult
            <= 0x1_0000_0000_0000_0000_0000_0000_0000,
        -4295 * abs(a) <= div_toward_zero(a * dt * mult, den) <= 4295 * abs(a),
{
    let x: int = abs(a) as int;
    let t: int = x * dt * mult;
    assert(-0x1_0000_0000_0000_0000_0000_0000 <= a * dt <= 0x1_0000_0000_0000_0000_0000_0000)
        by (nonlinear_arith)
        requires
            -FACTOR_LIMIT <= a <= FACTOR_LIMIT,
            0 <= dt <= MAX_DELTA_MICROS;
    assert(a * dt * mult == t || a * dt * mult == -t) by (nonlinear_arith)
        requires
            x == a || x == -a,
            t == x * dt * mult;
    assert(0 <= t <= x * MAX_DELTA_MICROS * 1000) by (nonlinear_arith)
        requires
            0 <= x,
            0 <= dt <= MAX_DELTA_MICROS,
            0 <= mult <= 1000,
            t == x * dt * mult;
    assert(t * MICROS_PER_SECOND <= x * MAX_DELTA_MICROS * den) by (nonlinear_arith)
        requires
            0 <= x,
            0 <= dt <= MAX_DELTA_MICROS,
            0 <= mult,
            MICROS_PER_SECOND * mult <= den,
            t == x * dt * mult;
    assert(t <= 4295 * x * den) by (nonlinear_arith)
        requires
            t * MICROS_PER_SECOND <= x * MAX_DELTA_MICROS * den,
            0 <= x,
            den > 0;
    assert(0 <= t / den <= 4295 * x) by (nonlinear_arith)
        requires
            0 <= t <= 4295 * x * den,
            den > 0;
}

/// `a * dt * mult / den` rounded toward zero; at most 4295 times `|a|` (see
/// `lemma_scaled_bound`).
pub fn scale_toward_zero(a: i128, dt: i128, mult: i128, den: i128) -> (r: i128)
    requires
        -FACTOR_LIMIT <= a <= FACTOR_LIMIT,
        0 <= dt <= MAX_DELTA_MICROS,
        0 <= mult <= 1000,
        0 < den,
        MICROS_PER_SECOND * mult <= den,
    ensures
        r == div_toward_zero(a * dt * mult, den as int),
        -4295 * abs(a as int) <= r <= 4295 * abs(a as int),
{
    proof {
        lemma_scaled_bound(a as int, dt as int, mult as int, den as int);
    }
    let p: i128 = a * dt * mult;
    divide_toward_zero(p, den)
}

/// Render and collision x of an entity: absolute while the player is left of
/// the follow threshold, camera-relative once the player is at or past it.
pub open spec fn fold_x(x: int, player_x: int, scroll: int) -> int {
    if player_x >= FOLLOW_THRESHOLD {
        x - player_x + FOLLOW_THRESHOLD - scroll
    } else {
        x
    }
}

/// The absolute x that a camera-relative x stands for, once the player is at
/// or past the follow threshold.
pub open spec fn unfold_x(folded: int, player_x: int, scroll: int) -> int {
    folded + player_x - FOLLOW_THRESHOLD + scroll
}

/// Camera fold of `x` (see `fold_x`).
pub fn camera_x(x: i128, player_x: i128, scroll: i128) -> (r: i128)
    requires
        -WIDE_LIMIT <= x <= WIDE_LIMIT,
        -WIDE_LIMIT <= player_x <= WIDE_LIMIT,
        -WIDE_LIMIT <= scroll <= WIDE_LIMIT,
    ensures
        r == fold_x(x as int, player_x as int, scroll as int),
{
    if player_x >= FOLLOW_THRESHOLD {
        x - player_x + FOLLOW_THRESHOLD - scroll
    } else {
        x
    }
}

} // verus!
