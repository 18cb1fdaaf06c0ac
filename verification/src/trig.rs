//! Fixed-point trigonometry on angles in millidegrees.
//!
//! `sin_mdeg` and `cos_mdeg` evaluate Bhaskara's rational approximation of
//! the sine with integer arithmetic only. Results are scaled by
//! `TRIG_SCALE`: the value `1000` stands for `1.0`. The approximation is
//! exact at every multiple of 30 degrees, in particular at the axes, and its
//! result always lies in `[-TRIG_SCALE, TRIG_SCALE]`.

use vstd::prelude::*;

verus! {

/// Millidegrees in a full turn; normalized angles live in `[0, FULL_TURN)`.
pub const FULL_TURN: i64 = 360_000;

/// Millidegrees in a half turn.
pub const HALF_TURN: i64 = 180_000;

/// Millidegrees in a quarter turn.
pub const QUARTER_TURN: i64 = 90_000;

/// Fixed-point scale of trigonometric results: 1000 stands for 1.0.
pub const TRIG_SCALE: i64 = 1000;

/// Denominator constant of Bhaskara's approximation, in millidegree units:
/// `5 * (HALF_TURN / 2)^2`.
pub const SIN_DEN: i64 = 40_500_000_000;

/// Bhaskara's approximation of `TRIG_SCALE * sin(x)` for `x` in
/// `[0, HALF_TURN]` millidegrees.
pub open spec fn sin_half_spec(x: int) -> int {
    (4 * (x * (HALF_TURN - x)) * TRIG_SCALE) / (SIN_DEN - x * (HALF_TURN - x))
}

/// `TRIG_SCALE * sin(x)` for a normalized angle `x` in `[0, FULL_TURN)`.
pub open spec fn sin_spec(x: int) -> int {
    if x < HALF_TURN {
        sin_half_spec(x)
    } else {
        -sin_half_spec(x - HALF_TURN)
    }
}

/// `TRIG_SCALE * cos(x)` for a normalized angle `x` in `[0, FULL_TURN)`:
/// the sine shifted by a quarter turn.
pub open spec fn cos_spec(x: int) -> int {
    if x + QUARTER_TURN < FULL_TURN {
        sin_spec(x + QUARTER_TURN)
    } else {
        sin_spec(x + QUARTER_TURN - FULL_TURN)
    }
}

/// The parabola `x * (HALF_TURN - x)` stays within `[0, 8_100_000_000]` on
/// `[0, HALF_TURN]`: its peak is at the quarter turn.
proof fn lemma_parabola_bounds(x: int)
    requires
        0 <= x <= HALF_TURN,
    ensures
        0 <= x * (HALF_TURN - x) <= 8_100_000_000,
{
    assert(0 <= x * (HALF_TURN - x) <= 8_100_000_000) by (nonlinear_arith)
        requires
            0 <= x <= HALF_TURN,
    ;
}

/// Sine on the first half turn, by Bhaskara's approximation.
fn sin_half(x: i64) -> (r: i64)
    requires
        0 <= x <= HALF_TURN,
    ensures
        r == sin_half_spec(x as int),
        0 <= r <= TRIG_SCALE,
{
    proof {
        lemma_parabola_bounds(x as int);
    }
    let p: i64 = x * (HALF_TURN - x);
    let num: i64 = 4 * p * TRIG_SCALE;
    let den: i64 = SIN_DEN - p;
    let r: i64 = num / den;
    proof {
        assert(num <= TRIG_SCALE * den) by (nonlinear_arith)
            requires
                0 <= p <= 8_100_000_000,
                num == 4 * p * TRIG_SCALE,
                den == SIN_DEN - p,
        ;
        assert(0 <= num / den <= TRIG_SCALE) by (nonlinear_arith)
            requires
                0 <= num,
                0 < den,
                num <= TRIG_SCALE * den,
        ;
    }
    r
}

/// Fixed-point sine of a normalized angle in millidegrees.
pub fn sin_mdeg(x: i64) -> (r: i64)
    requires
        0 <= x < FULL_TURN,
    ensures
        r == sin_spec(x as int),
        -TRIG_SCALE <= r <= TRIG_SCALE,
{
    if x < HALF_TURN {
        sin_half(x)
    } else {
        let s = sin_half(x - HALF_TURN);
        -s
    }
}

/// Fixed-point cosine of a normalized angle in millidegrees.
pub fn cos_mdeg(x: i64) -> (r: i64)
    requires
        0 <= x < FULL_TURN,
    ensures
        r == cos_spec(x as int),
        -TRIG_SCALE <= r <= TRIG_SCALE,
{
    if x + QUARTER_TURN < FULL_TURN {
        sin_mdeg(x + QUARTER_TURN)
    } else {
        sin_mdeg(x + QUARTER_TURN - FULL_TURN)
    }
}

/// Brings an angle within one turn of the normalized range back into
/// `[0, FULL_TURN)`.
pub open spec fn norm_spec(a: int) -> int {
    if a < 0 {
        a + FULL_TURN
    } else if a >= FULL_TURN {
        a - FULL_TURN
    } else {
        a
    }
}

/// Normalizes an angle that overshoots the range `[0, FULL_TURN)` by less
/// than one full turn on either side.
pub fn norm_angle(a: i64) -> (r: i64)
    requires
        -FULL_TURN < a < 2 * FULL_TURN,
    ensures
        r == norm_spec(a as int),
        0 <= r < FULL_TURN,
{
    if a < 0 {
        a + FULL_TURN
    } else if a >= FULL_TURN {
        a - FULL_TURN
    } else {
        a
    }
}

/// Fixed-point product scale-down, truncating toward zero: the integer part
/// of `n / 1000`.
pub open spec fn sdiv1000(n: int) -> int {
    if n >= 0 {
        n / 1000
    } else {
        -((-n) / 1000)
    }
}

/// The half-turn sine approximation stays within the scale.
proof fn lemma_sin_half_bounds(x: int)
    requires
        0 <= x <= HALF_TURN,
    ensures
        0 <= sin_half_spec(x) <= TRIG_SCALE,
{
    let p = x * (HALF_TURN - x);
    assert(0 <= p <= 8_100_000_000) by (nonlinear_arith)
        requires
            0 <= x <= HALF_TURN,
            p == x * (HALF_TURN - x),
    ;
    let num = 4 * p * TRIG_SCALE;
    let den = SIN_DEN - p;
    assert(num <= TRIG_SCALE * den) by (nonlinear_arith)
        requires
            0 <= p <= 8_100_000_000,
            num == 4 * p * TRIG_SCALE,
            den == SIN_DEN - p,
    ;
    assert(0 <= num / den <= TRIG_SCALE) by (nonlinear_arith)
        requires
            0 <= num,
            0 < den,
            num <= TRIG_SCALE * den,
    ;
}

/// Both direction components stay within the scale at every normalized
/// angle.
pub proof fn lemma_trig_bounds(b: int)
    requires
        0 <= b < FULL_TURN,
    ensures
        -TRIG_SCALE <= sin_spec(b) <= TRIG_SCALE,
        -TRIG_SCALE <= cos_spec(b) <= TRIG_SCALE,
{
    if b < HALF_TURN {
        lemma_sin_half_bounds(b);
    } else {
        lemma_sin_half_bounds(b - HALF_TURN);
    }
    let shifted = if b + QUARTER_TURN < FULL_TURN {
        b + QUARTER_TURN
    } else {
        b + QUARTER_TURN - FULL_TURN
    };
    if shifted < HALF_TURN {
        lemma_sin_half_bounds(shifted);
    } else {
        lemma_sin_half_bounds(shifted - HALF_TURN);
    }
}

/// On the middle third of the half turn the approximated sine is at least
/// one half, exactly as the true sine is.
proof fn lemma_sin_half_ge(x: int)
    requires
        30_000 <= x <= 150_000,
    ensures
        sin_half_spec(x) >= 500,
{
    let p = x * (HALF_TURN - x);
    assert(4_500_000_000 <= p <= 8_100_000_000) by (nonlinear_arith)
        requires
            30_000 <= x <= 150_000,
            p == x * (HALF_TURN - x),
    ;
    let num = 4 * p * TRIG_SCALE;
    let den = SIN_DEN - p;
    assert(num >= 500 * den) by (nonlinear_arith)
        requires
            p >= 4_500_000_000,
            num == 4 * p * TRIG_SCALE,
            den == SIN_DEN - p,
    ;
    assert(num / den >= 500) by (nonlinear_arith)
        requires
            num >= 500 * den,
            den > 0,
            num >= 0,
    ;
}

/// At every bearing, at least one of the two direction components is at
/// least half the scale in magnitude: the direction never degenerates.
pub proof fn lemma_trig_component(b: int)
    requires
        0 <= b < FULL_TURN,
    ensures
        cos_spec(b) >= 500 || cos_spec(b) <= -500 || sin_spec(b) >= 500 || sin_spec(b) <= -500,
{
    if 30_000 <= b <= 150_000 {
        lemma_sin_half_ge(b);
    } else if 210_000 <= b <= 330_000 {
        lemma_sin_half_ge(b - HALF_TURN);
    } else if b < 30_000 {
        lemma_sin_half_ge(b + QUARTER_TURN);
    } else if b <= 210_000 {
        lemma_sin_half_ge(b + QUARTER_TURN - HALF_TURN);
    } else {
        lemma_sin_half_ge(b + QUARTER_TURN - FULL_TURN);
    }
}

/// The scale-down is bounded by the scaled-down bound of its argument.
pub proof fn lemma_sdiv1000_bound(n: int, m: int)
    requires
        0 <= m,
        -m <= n <= m,
    ensures
        -(m / 1000) <= sdiv1000(n) <= m / 1000,
{
    if n >= 0 {
        vstd::arithmetic::div_mod::lemma_div_is_ordered(n, m, 1000);
        vstd::arithmetic::div_mod::lemma_div_pos_is_pos(n, 1000);
    } else {
        vstd::arithmetic::div_mod::lemma_div_is_ordered(-n, m, 1000);
        vstd::arithmetic::div_mod::lemma_div_pos_is_pos(-n, 1000);
    }
}

/// Multiplies two fixed-point values and removes one factor of the scale,
/// truncating toward zero.
pub fn muldiv1000(a: i64, b: i64) -> (r: i64)
    requires
        -1_000_000_000_000_000 <= a * b <= 1_000_000_000_000_000,
    ensures
        r == sdiv1000(a * b),
{
    let p: i64 = a * b;
    if p >= 0 {
        p / 1000
    } else {
        -((-p) / 1000)
    }
}

} // verus!
