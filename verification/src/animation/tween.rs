//! The tween engine: thirty easing curves and the node that advances
//! a normalized progress value over wall-clock time.
//!
//! Curves are pure functions over fixed-point millionths: the input
//! runs over `[0, SCALE]` and the output is the eased progress, again
//! in millionths (the back and elastic families overshoot that range
//! by design). Every curve maps 0 to 0 and `SCALE` to `SCALE`
//! exactly; see [`lemma_curve_boundaries`]. Trigonometric segments
//! use an exact rational quarter-wave approximation and exponential
//! segments interpolate between exact powers of two, so the whole
//! engine is integer arithmetic.

use vstd::prelude::*;

use crate::component::Component;
use crate::context::Context;
use crate::fixed::{div_nn, MAX_MAGNITUDE, SCALE};
use crate::frame::{DrawCmd, Frame};
use crate::ui::Ui;

verus! {

/// `SCALE` as a plain int, for spec arithmetic.
#[verifier::inline]
pub open spec fn sc() -> int {
    1_000_000
}

/// Division of non-negative `i128` values, routed through `u128`.
fn div_nn128(a: i128, b: i128) -> (r: i128)
    requires
        0 <= a,
        0 < b,
    ensures
        r as int == a as int / b as int,
        0 <= r <= a,
{
    proof {
        vstd::arithmetic::div_mod::lemma_div_nonincreasing(a as int, b as int);
        vstd::arithmetic::div_mod::lemma_div_pos_is_pos(a as int, b as int);
    }
    ((a as u128) / (b as u128)) as i128
}

/// `x * x / SCALE`: the quadratic ease shape.
pub open spec fn quad_term(x: int) -> int {
    x * x / sc()
}

fn quad_term_x(x: i64) -> (r: i64)
    requires
        0 <= x <= 2 * SCALE,
    ensures
        r as int == quad_term(x as int),
        0 <= r <= 4 * SCALE,
{
    proof {
        assert(0 <= x * x <= 4_000_000_000_000) by (nonlinear_arith)
            requires
                0 <= x <= 2_000_000,
        ;
        vstd::arithmetic::div_mod::lemma_div_pos_is_pos(x * x, sc());
        vstd::arithmetic::div_mod::lemma_div_is_ordered(x * x, 4_000_000_000_000, sc());
    }
    (((x as i128) * (x as i128) / 1_000_000i128) as i64)
}

/// `x^3 / SCALE^2`: the cubic ease shape.
pub open spec fn cube_term(x: int) -> int {
    x * x * x / (sc() * sc())
}

fn cube_term_x(x: i64) -> (r: i64)
    requires
        0 <= x <= 2 * SCALE,
    ensures
        r as int == cube_term(x as int),
        0 <= r <= 8 * SCALE,
{
    proof {
        assert(0 <= x * x <= 4_000_000_000_000 && 0 <= x * x * x <= 8_000_000_000_000_000_000)
            by (nonlinear_arith)
            requires
                0 <= x <= 2_000_000,
        ;
        vstd::arithmetic::div_mod::lemma_div_pos_is_pos(x * x * x, sc() * sc());
        vstd::arithmetic::div_mod::lemma_div_is_ordered(
            x * x * x,
            8_000_000_000_000_000_000,
            sc() * sc(),
        );
    }
    (((x as i128) * (x as i128) * (x as i128) / 1_000_000_000_000i128) as i64)
}

/// `x^4 / SCALE^3`: the quartic ease shape.
pub open spec fn quart_term(x: int) -> int {
    x * x * x * x / (sc() * sc() * sc())
}

fn quart_term_x(x: i64) -> (r: i64)
    requires
        0 <= x <= 2 * SCALE,
    ensures
        r as int == quart_term(x as int),
        0 <= r <= 16 * SCALE,
{
    proof {
        assert(0 <= x * x <= 4_000_000_000_000) by (nonlinear_arith)
            requires
                0 <= x <= 2_000_000,
        ;
        assert(0 <= x * x * x <= 8_000_000_000_000_000_000) by (nonlinear_arith)
            requires
                0 <= x <= 2_000_000,
                0 <= x * x <= 4_000_000_000_000,
        ;
        assert(0 <= x * x * x * x <= 16_000_000_000_000_000_000_000_000) by (nonlinear_arith)
            requires
                0 <= x <= 2_000_000,
                0 <= x * x * x <= 8_000_000_000_000_000_000,
        ;
        vstd::arithmetic::div_mod::lemma_div_pos_is_pos(x * x * x * x, sc() * sc() * sc());
        vstd::arithmetic::div_mod::lemma_div_is_ordered(
            x * x * x * x,
            16_000_000_000_000_000_000_000_000,
            sc() * sc() * sc(),
        );
    }
    (((x as i128) * (x as i128) * (x as i128) * (x as i128) / 1_000_000_000_000_000_000i128) as i64)
}

/// `x^5 / SCALE^4`: the quintic ease shape.
pub open spec fn quint_term(x: int) -> int {
    x * x * x * x * x / (sc() * sc() * sc() * sc())
}

fn quint_term_x(x: i64) -> (r: i64)
    requires
        0 <= x <= 2 * SCALE,
    ensures
        r as int == quint_term(x as int),
        0 <= r <= 32 * SCALE,
{
    proof {
        assert(0 <= x * x <= 4_000_000_000_000) by (nonlinear_arith)
            requires
                0 <= x <= 2_000_000,
        ;
        assert(0 <= x * x * x <= 8_000_000_000_000_000_000) by (nonlinear_arith)
            requires
                0 <= x <= 2_000_000,
                0 <= x * x <= 4_000_000_000_000,
        ;
        assert(0 <= x * x * x * x <= 16_000_000_000_000_000_000_000_000) by (nonlinear_arith)
            requires
                0 <= x <= 2_000_000,
                0 <= x * x * x <= 8_000_000_000_000_000_000,
        ;
        assert(0 <= x * x * x * x * x <= 32_000_000_000_000_000_000_000_000_000_000)
            by (nonlinear_arith)
            requires
                0 <= x <= 2_000_000,
                0 <= x * x * x * x <= 16_000_000_000_000_000_000_000_000,
        ;
        vstd::arithmetic::div_mod::lemma_div_pos_is_pos(
            x * x * x * x * x,
            sc() * sc() * sc() * sc(),
        );
        vstd::arithmetic::div_mod::lemma_div_is_ordered(
            x * x * x * x * x,
            32_000_000_000_000_000_000_000_000_000_000,
            sc() * sc() * sc() * sc(),
        );
    }
    (((x as i128) * (x as i128) * (x as i128) * (x as i128) * (x as i128) / 1_000_000_000_000_000_000_000_000i128) as i64)
}

/// The quarter sine wave on `[0, SCALE]`, an exact rational
/// approximation: `4x(2 - x) / (5 - x(2 - x))` over normalized
/// values; 0 at 0 and exactly `SCALE` at `SCALE`.
pub open spec fn qsin(x: int) -> int {
    4 * x * (2 * sc() - x) * sc() / (5 * sc() * sc() - x * (2 * sc() - x))
}

/// The quarter wave stays within `[0, SCALE]`.
proof fn lemma_qsin_bounds(x: int)
    requires
        0 <= x <= sc(),
    ensures
        0 <= qsin(x) <= sc(),
{
    let y = x * (2 * sc() - x);
    assert(0 <= y <= sc() * sc()) by (nonlinear_arith)
        requires
            0 <= x <= sc(),
            sc() == 1_000_000,
            y == x * (2 * sc() - x),
    ;
    let num = 4 * y * sc();
    let den = 5 * sc() * sc() - y;
    assert(4 * x * (2 * sc() - x) * sc() == num) by (nonlinear_arith)
        requires
            y == x * (2 * sc() - x),
            num == 4 * y * sc(),
    ;
    assert(num <= den * sc()) by (nonlinear_arith)
        requires
            0 <= y <= sc() * sc(),
            sc() == 1_000_000,
            num == 4 * y * sc(),
            den == 5 * sc() * sc() - y,
    ;
    vstd::arithmetic::div_mod::lemma_div_pos_is_pos(num, den);
    assert(num / den <= sc()) by {
        vstd::arithmetic::div_mod::lemma_div_is_ordered(num, den * sc(), den);
        vstd::arithmetic::div_mod::lemma_div_by_multiple(sc(), den);
    }
    assert(qsin(x) == num / den);
}

fn qsin_x(x: i64) -> (r: i64)
    requires
        0 <= x <= SCALE,
    ensures
        r as int == qsin(x as int),
        0 <= r <= SCALE,
{
    proof {
        lemma_qsin_bounds(x as int);
        assert(0 <= x * (2 * sc() - x) <= sc() * sc()) by (nonlinear_arith)
            requires
                0 <= x <= sc(),
                sc() == 1_000_000,
        ;
        assert(4 * (x * (2 * sc() - x)) * sc() == 4 * x * (2 * sc() - x) * sc())
            by (nonlinear_arith);
    }
    let y: i128 = (x as i128) * (2_000_000i128 - (x as i128));
    let num: i128 = 4 * y * 1_000_000i128;
    let den: i128 = 5_000_000_000_000i128 - y;
    (div_nn128(num, den) as i64)
}

/// The full sine wave at `a` quarter-turns-in-millionths, by folding
/// the angle onto the quarter wave.
pub open spec fn sinq(a: int) -> int {
    let r = a % (4 * sc());
    if r < sc() {
        qsin(r)
    } else if r < 2 * sc() {
        qsin(2 * sc() - r)
    } else if r < 3 * sc() {
        -qsin(r - 2 * sc())
    } else {
        -qsin(4 * sc() - r)
    }
}

/// The folded wave stays within `[-SCALE, SCALE]`.
proof fn lemma_sinq_bounds(a: int)
    ensures
        -sc() <= sinq(a) <= sc(),
{
    let r = a % (4 * sc());
    vstd::arithmetic::div_mod::lemma_mod_division_less_than_divisor(a, 4 * sc());
    if r < sc() {
        lemma_qsin_bounds(r);
    } else if r < 2 * sc() {
        lemma_qsin_bounds(2 * sc() - r);
    } else if r < 3 * sc() {
        lemma_qsin_bounds(r - 2 * sc());
    } else {
        lemma_qsin_bounds(4 * sc() - r);
    }
}

fn sinq_x(a: i64) -> (r: i64)
    requires
        -100 * SCALE <= a <= 100 * SCALE,
    ensures
        r as int == sinq(a as int),
        -SCALE <= r <= SCALE,
{
    let four: i64 = 4 * SCALE;
    let m: i64 = if a >= 0 {
        ((a as u64) % (four as u64)) as i64
    } else {
        let k = (((-a) as u64) % (four as u64)) as i64;
        if k == 0 {
            0
        } else {
            four - k
        }
    };
    proof {
        let m4 = four as int;
        if a < 0 {
            let na = -(a as int);
            let k = na % m4;
            let q = na / m4;
            vstd::arithmetic::div_mod::lemma_fundamental_div_mod(na, m4);
            vstd::arithmetic::div_mod::lemma_mod_division_less_than_divisor(na, m4);
            if k == 0 {
                assert(a as int == (-q) * m4 + 0) by (nonlinear_arith)
                    requires
                        na == m4 * q + k,
                        k == 0,
                        na == -(a as int),
                ;
                vstd::arithmetic::div_mod::lemma_fundamental_div_mod_converse_mod(
                    a as int,
                    m4,
                    -q,
                    0,
                );
            } else {
                assert(a as int == (-q - 1) * m4 + (m4 - k)) by (nonlinear_arith)
                    requires
                        na == m4 * q + k,
                        na == -(a as int),
                ;
                vstd::arithmetic::div_mod::lemma_fundamental_div_mod_converse_mod(
                    a as int,
                    m4,
                    -q - 1,
                    m4 - k,
                );
            }
        }
        vstd::arithmetic::div_mod::lemma_mod_division_less_than_divisor(a as int, four as int);
        lemma_sinq_bounds(a as int);
        assert(m as int == (a as int) % m4);
    }
    if m < SCALE {
        qsin_x(m)
    } else if m < 2 * SCALE {
        qsin_x(2 * SCALE - m)
    } else if m < 3 * SCALE {
        -qsin_x(m - 2 * SCALE)
    } else {
        -qsin_x(4 * SCALE - m)
    }
}

/// `SCALE / 2^i` for steps of the exponential family, exact values.
pub open spec fn halfpow(i: int) -> int {
    if i <= 0 {
        1_000_000
    } else if i == 1 {
        500_000
    } else if i == 2 {
        250_000
    } else if i == 3 {
        125_000
    } else if i == 4 {
        62_500
    } else if i == 5 {
        31_250
    } else if i == 6 {
        15_625
    } else if i == 7 {
        7_812
    } else if i == 8 {
        3_906
    } else if i == 9 {
        1_953
    } else if i == 10 {
        976
    } else {
        0
    }
}

fn halfpow_x(i: i64) -> (r: i64)
    requires
        0 <= i <= 11,
    ensures
        r as int == halfpow(i as int),
        0 <= r <= SCALE,
{
    if i == 0 {
        1_000_000
    } else if i == 1 {
        500_000
    } else if i == 2 {
        250_000
    } else if i == 3 {
        125_000
    } else if i == 4 {
        62_500
    } else if i == 5 {
        31_250
    } else if i == 6 {
        15_625
    } else if i == 7 {
        7_812
    } else if i == 8 {
        3_906
    } else if i == 9 {
        1_953
    } else if i == 10 {
        976
    } else {
        0
    }
}

/// `SCALE * 2^(-d / SCALE)` for `d` in `[0, 10 * SCALE]`: exact at
/// whole exponents, linearly interpolated between them. Exactly
/// `SCALE` at `d == 0`.
pub open spec fn pow2s(d: int) -> int {
    let i = d / sc();
    let f = d % sc();
    let b = halfpow(i);
    let bn = halfpow(i + 1);
    b - (b - bn) * f / sc()
}

/// The interpolated exponential stays within `[0, SCALE]`.
proof fn lemma_pow2s_bounds(d: int)
    requires
        0 <= d <= 10 * sc(),
    ensures
        0 <= pow2s(d) <= sc(),
{
    let i = d / sc();
    let f = d % sc();
    vstd::arithmetic::div_mod::lemma_mod_division_less_than_divisor(d, sc());
    vstd::arithmetic::div_mod::lemma_div_pos_is_pos(d, sc());
    vstd::arithmetic::div_mod::lemma_div_is_ordered(d, 10 * sc(), sc());
    vstd::arithmetic::div_mod::lemma_div_by_multiple(10, sc());
    let b = halfpow(i);
    let bn = halfpow(i + 1);
    assert(0 <= bn <= b <= sc());
    assert(0 <= (b - bn) * f <= (b - bn) * sc()) by (nonlinear_arith)
        requires
            0 <= b - bn,
            0 <= f < sc(),
    ;
    vstd::arithmetic::div_mod::lemma_div_pos_is_pos((b - bn) * f, sc());
    vstd::arithmetic::div_mod::lemma_div_is_ordered((b - bn) * f, (b - bn) * sc(), sc());
    vstd::arithmetic::div_mod::lemma_div_by_multiple(b - bn, sc());
}

fn pow2s_x(d: i64) -> (r: i64)
    requires
        0 <= d <= 10 * SCALE,
    ensures
        r as int == pow2s(d as int),
        0 <= r <= SCALE,
{
    let i = div_nn(d, SCALE);
    let f = d - i * SCALE;
    proof {
        vstd::arithmetic::div_mod::lemma_fundamental_div_mod(d as int, sc());
        vstd::arithmetic::div_mod::lemma_mod_division_less_than_divisor(d as int, sc());
        vstd::arithmetic::div_mod::lemma_div_is_ordered(d as int, 10 * sc(), sc());
        vstd::arithmetic::div_mod::lemma_div_by_multiple(10, sc());
        lemma_pow2s_bounds(d as int);
    }
    let b = halfpow_x(i);
    let bn = halfpow_x(i + 1);
    proof {
        assert(0 <= bn <= b <= SCALE);
        assert(0 <= (b - bn) * (f as int) <= sc() * sc()) by (nonlinear_arith)
            requires
                0 <= b - bn <= sc(),
                0 <= f < sc(),
            ;
    }
    b - div_nn((b - bn) * f, SCALE)
}

/// `r` is the integer square root of `n`.
pub open spec fn is_sqrt(n: int, r: int) -> bool {
    0 <= r && r * r <= n < (r + 1) * (r + 1)
}

/// The exact integer square root.
pub open spec fn int_sqrt(n: int) -> int {
    choose|r: int| is_sqrt(n, r)
}

/// Two integer square roots of the same value are equal.
proof fn lemma_sqrt_unique(n: int, a: int, b: int)
    requires
        0 <= a,
        0 <= b,
        a * a <= n < (a + 1) * (a + 1),
        b * b <= n < (b + 1) * (b + 1),
    ensures
        a == b,
{
    assert(a == b) by (nonlinear_arith)
        requires
            0 <= a,
            0 <= b,
            a * a <= n < (a + 1) * (a + 1),
            b * b <= n < (b + 1) * (b + 1),
    ;
}

fn isqrt(n: u64) -> (r: i64)
    requires
        n <= 4_000_000_000_000,
    ensures
        r as int == int_sqrt(n as int),
        0 <= r <= 2_000_000,
        r * r <= n < (r + 1) * (r + 1),
{
    let mut lo: u64 = 0;
    let mut hi: u64 = 2_000_001;
    proof {
        assert(2_000_001 * 2_000_001 > 4_000_000_000_000) by (nonlinear_arith);
    }
    while lo + 1 < hi
        invariant
            lo < hi <= 2_000_001,
            lo * lo <= n,
            n < hi * hi,
        decreases hi - lo,
    {
        let mid = lo + (hi - lo) / 2;
        proof {
            assert(lo < mid < hi);
            assert(mid * mid <= 4_000_004_000_001) by (nonlinear_arith)
                requires
                    mid <= 2_000_001,
            ;
        }
        if mid * mid <= n {
            lo = mid;
        } else {
            hi = mid;
        }
    }
    proof {
        let li = lo as int;
        let ni = n as int;
        assert(li * li <= ni);
        assert(ni < (li + 1) * (li + 1));
        lemma_int_sqrt_is(ni, li);
    }
    lo as i64
}

/// The signed back-family core: `x^2 (coef x - offs SCALE)` over
/// `SCALE^3`, halved when asked, with divisions kept non-negative.
pub open spec fn back_term(x: int, coef: int, offs: int, halved: bool) -> int {
    let den = if halved {
        2 * sc() * sc() * sc()
    } else {
        sc() * sc() * sc()
    };
    if coef * x >= offs * sc() {
        x * x * (coef * x - offs * sc()) / den
    } else {
        -(x * x * (offs * sc() - coef * x) / den)
    }
}

fn back_term_x(x: i64, coef: i64, offs: i64, halved: bool) -> (r: i64)
    requires
        0 <= x <= 2 * SCALE,
        0 < coef <= 4 * SCALE,
        0 < offs <= 4 * SCALE,
    ensures
        r as int == back_term(x as int, coef as int, offs as int, halved),
        -64 * SCALE <= r <= 64 * SCALE,
{
    let den: i128 = if halved {
        2_000_000_000_000_000_000i128
    } else {
        1_000_000_000_000_000_000i128
    };
    proof {
        assert(coef * x <= 8_000_000_000_000 && offs * sc() <= 4_000_000_000_000)
            by (nonlinear_arith)
            requires
                0 <= x <= 2 * sc(),
                0 < coef <= 4 * sc(),
                0 < offs <= 4 * sc(),
                sc() == 1_000_000,
        ;
    }
    proof {
        assert(0 <= (x as int) * (x as int) <= 4_000_000_000_000) by (nonlinear_arith)
            requires
                0 <= x <= 2_000_000,
        ;
    }
    let cx: i128 = (coef as i128) * (x as i128);
    let os: i128 = (offs as i128) * 1_000_000i128;
    let xx: i128 = (x as i128) * (x as i128);
    if cx >= os {
        proof {
            assert((x as int) * (x as int) * ((coef as int) * (x as int) - (offs as int) * sc())
                <= 4_000_000_000_000 * 12_000_000_000_000) by (nonlinear_arith)
                requires
                    0 <= (x as int) * (x as int) <= 4_000_000_000_000,
                    0 <= (coef as int) * (x as int) - (offs as int) * sc()
                        <= 12_000_000_000_000,
            ;
            vstd::arithmetic::div_mod::lemma_div_pos_is_pos(
                (x as int) * (x as int) * ((coef as int) * (x as int) - (offs as int) * sc()),
                den as int,
            );
            vstd::arithmetic::div_mod::lemma_div_is_ordered(
                (x as int) * (x as int) * ((coef as int) * (x as int) - (offs as int) * sc()),
                4_000_000_000_000int * 12_000_000_000_000,
                den as int,
            );
            assert(4_000_000_000_000int * 12_000_000_000_000 == 48_000_000 * (sc() * sc()
                * sc()));
            vstd::arithmetic::div_mod::lemma_div_by_multiple(48_000_000, sc() * sc() * sc());
        }
        (div_nn128(xx * (cx - os), den) as i64)
    } else {
        proof {
            assert((x as int) * (x as int) * ((offs as int) * sc() - (coef as int) * (x as int))
                <= 4_000_000_000_000 * 4_000_000_000_000) by (nonlinear_arith)
                requires
                    0 <= (x as int) * (x as int) <= 4_000_000_000_000,
                    0 <= (offs as int) * sc() - (coef as int) * (x as int) <= 4_000_000_000_000,
            ;
            vstd::arithmetic::div_mod::lemma_div_pos_is_pos(
                (x as int) * (x as int) * ((offs as int) * sc() - (coef as int) * (x as int)),
                den as int,
            );
            vstd::arithmetic::div_mod::lemma_div_is_ordered(
                (x as int) * (x as int) * ((offs as int) * sc() - (coef as int) * (x as int)),
                4_000_000_000_000int * 4_000_000_000_000,
                den as int,
            );
            assert(4_000_000_000_000int * 4_000_000_000_000 == 16_000_000 * (sc() * sc()
                * sc()));
            vstd::arithmetic::div_mod::lemma_div_by_multiple(16_000_000, sc() * sc() * sc());
        }
        -(div_nn128(xx * (os - cx), den) as i64)
    }
}

/// The signed elastic core: `pow2s(d) * sinq(a)` over `SCALE` (or
/// `2 SCALE` when halved), with divisions kept non-negative.
pub open spec fn elastic_term(d: int, a: int, halved: bool) -> int {
    let den = if halved {
        2 * sc()
    } else {
        sc()
    };
    let p = pow2s(d);
    let sq = sinq(a);
    if sq >= 0 {
        p * sq / den
    } else {
        -(p * -sq / den)
    }
}

fn elastic_term_x(d: i64, a: i64, halved: bool) -> (r: i64)
    requires
        0 <= d <= 10 * SCALE,
        -100 * SCALE <= a <= 100 * SCALE,
    ensures
        r as int == elastic_term(d as int, a as int, halved),
        -SCALE <= r <= SCALE,
{
    let den: i64 = if halved {
        2 * SCALE
    } else {
        SCALE
    };
    let p = pow2s_x(d);
    let sq = sinq_x(a);
    proof {
        if sq >= 0 {
            assert(0 <= (p as int) * (sq as int) <= sc() * sc()) by (nonlinear_arith)
                requires
                    0 <= p <= sc(),
                    0 <= sq <= sc(),
            ;
            vstd::arithmetic::div_mod::lemma_div_pos_is_pos((p as int) * (sq as int), den as int);
            vstd::arithmetic::div_mod::lemma_div_is_ordered(
                (p as int) * (sq as int),
                sc() * sc(),
                den as int,
            );
            assert(sc() * sc() / sc() == sc());
        } else {
            assert(0 <= (p as int) * (-sq as int) <= sc() * sc()) by (nonlinear_arith)
                requires
                    0 <= p <= sc(),
                    0 < -sq <= sc(),
            ;
            vstd::arithmetic::div_mod::lemma_div_pos_is_pos((p as int) * (-sq as int), den as int);
            vstd::arithmetic::div_mod::lemma_div_is_ordered(
                (p as int) * (-sq as int),
                sc() * sc(),
                den as int,
            );
            assert(sc() * sc() / sc() == sc());
        }
    }
    if sq >= 0 {
        div_nn(p * sq, den)
    } else {
        -div_nn(p * (-sq), den)
    }
}

/// `int_sqrt` of a value between two consecutive squares is the lower
/// root.
proof fn lemma_int_sqrt_is(n: int, w: int)
    requires
        0 <= w,
        w * w <= n < (w + 1) * (w + 1),
    ensures
        int_sqrt(n) == w,
{
    assert(exists|r: int| is_sqrt(n, r)) by {
        assert(is_sqrt(n, w));
    }
    let c = int_sqrt(n);
    assert(is_sqrt(n, c));
    lemma_sqrt_unique(n, c, w);
}

/// The piecewise bounce curve, eased out: four parabola arcs, exact
/// at both ends.
pub open spec fn out_bounce(x: int) -> int {
    if 11 * x < 4 * sc() {
        7_562_500 * x * x / (sc() * sc())
    } else if 11 * x < 8 * sc() {
        let u = 11 * x - 6 * sc();
        7_562_500 * u * u / (121 * sc() * sc()) + 750_000
    } else if 11 * x < 10 * sc() {
        let u = 11 * x - 9 * sc();
        7_562_500 * u * u / (121 * sc() * sc()) + 937_500
    } else {
        let u = 22 * x - 21 * sc();
        7_562_500 * u * u / (484 * sc() * sc()) + 984_375
    }
}

/// The bounce curve stays within `[0, SCALE]`.
proof fn lemma_out_bounce_bounds(x: int)
    requires
        0 <= x <= sc(),
    ensures
        0 <= out_bounce(x) <= sc(),
{
    if 11 * x < 4 * sc() {
        assert(0 <= 7_562_500 * x * x <= 7_562_500 * (363_636 * 363_636)) by (nonlinear_arith)
            requires
                0 <= x <= 363_636,
        ;
        vstd::arithmetic::div_mod::lemma_div_pos_is_pos(7_562_500 * x * x, sc() * sc());
        vstd::arithmetic::div_mod::lemma_div_is_ordered(
            7_562_500 * x * x,
            7_562_500int * (363_636 * 363_636),
            sc() * sc(),
        );
    } else if 11 * x < 8 * sc() {
        let u = 11 * x - 6 * sc();
        assert(0 <= 7_562_500 * u * u <= 7_562_500 * (4 * sc() * sc())) by (nonlinear_arith)
            requires
                -2 * sc() <= u <= 2 * sc(),
                sc() == 1_000_000,
        ;
        vstd::arithmetic::div_mod::lemma_div_pos_is_pos(7_562_500 * u * u, 121 * sc() * sc());
        vstd::arithmetic::div_mod::lemma_div_is_ordered(
            7_562_500 * u * u,
            7_562_500 * (4 * sc() * sc()),
            121 * sc() * sc(),
        );
        assert(7_562_500 * (4 * sc() * sc()) == 250_000 * (121 * sc() * sc()));
        vstd::arithmetic::div_mod::lemma_div_by_multiple(250_000, 121 * sc() * sc());
    } else if 11 * x < 10 * sc() {
        let u = 11 * x - 9 * sc();
        assert(0 <= 7_562_500 * u * u <= 7_562_500 * (sc() * sc())) by (nonlinear_arith)
            requires
                -sc() <= u <= sc(),
                sc() == 1_000_000,
        ;
        vstd::arithmetic::div_mod::lemma_div_pos_is_pos(7_562_500 * u * u, 121 * sc() * sc());
        vstd::arithmetic::div_mod::lemma_div_is_ordered(
            7_562_500 * u * u,
            7_562_500 * (sc() * sc()),
            121 * sc() * sc(),
        );
        assert(7_562_500 * (sc() * sc()) == 62_500 * (121 * sc() * sc()) + 62_500_000_000_000int
            - 62_500_000_000_000);
        assert(7_562_500 * (sc() * sc()) == 62_500 * (121 * sc() * sc()));
        vstd::arithmetic::div_mod::lemma_div_by_multiple(62_500, 121 * sc() * sc());
    } else {
        let u = 22 * x - 21 * sc();
        assert(0 <= 7_562_500 * u * u <= 7_562_500 * (sc() * sc())) by (nonlinear_arith)
            requires
                -sc() <= u <= sc(),
                sc() == 1_000_000,
        ;
        vstd::arithmetic::div_mod::lemma_div_pos_is_pos(7_562_500 * u * u, 484 * sc() * sc());
        vstd::arithmetic::div_mod::lemma_div_is_ordered(
            7_562_500 * u * u,
            7_562_500 * (sc() * sc()),
            484 * sc() * sc(),
        );
        assert(7_562_500 * (sc() * sc()) == 15_625 * (484 * sc() * sc()));
        vstd::arithmetic::div_mod::lemma_div_by_multiple(15_625, 484 * sc() * sc());
    }
}

fn out_bounce_x(x: i64) -> (r: i64)
    requires
        0 <= x <= SCALE,
    ensures
        r as int == out_bounce(x as int),
        0 <= r <= SCALE,
{
    proof {
        lemma_out_bounce_bounds(x as int);
    }
    let n1: i128 = 7_562_500;
    let s2: i128 = 1_000_000_000_000i128;
    if 11 * x < 4 * SCALE {
        proof {
            assert(7_562_500 * (x as int) * (x as int) == 7_562_500 * ((x as int) * (x as int)))
                by (nonlinear_arith);
            assert(0 <= (x as int) * (x as int)) by (nonlinear_arith);
            assert(0 <= 7_562_500 * (x as int) <= 7_562_500_000_000_000_000) by (nonlinear_arith)
                requires
                    0 <= x <= 1_000_000,
            ;
            assert(7_562_500 * (x as int) * (x as int) <= 7_562_500_000_000_000_000_000_000)
                by (nonlinear_arith)
                requires
                    0 <= x <= 1_000_000,
                    0 <= 7_562_500 * (x as int) <= 7_562_500_000_000_000_000,
            ;
        }
        (div_nn128(n1 * (x as i128) * (x as i128), s2) as i64)
    } else if 11 * x < 8 * SCALE {
        let u: i128 = 11 * (x as i128) - 6_000_000i128;
        proof {
            let ui = 11 * (x as int) - 6 * sc();
            assert(7_562_500 * ui * ui == 7_562_500 * (ui * ui) && 0 <= ui * ui)
                by (nonlinear_arith);
            assert(-46_000_000_000_000 <= 7_562_500 * ui <= 46_000_000_000_000)
                by (nonlinear_arith)
                requires
                    -6_000_000 <= ui <= 6_000_000,
            ;
            assert(7_562_500 * ui * ui <= 280_000_000_000_000_000_000) by (nonlinear_arith)
                requires
                    -6_000_000 <= ui <= 6_000_000,
                    -46_000_000_000_000 <= 7_562_500 * ui <= 46_000_000_000_000,
            ;
        }
        (div_nn128(n1 * u * u, 121 * s2) as i64) + 750_000
    } else if 11 * x < 10 * SCALE {
        let u: i128 = 11 * (x as i128) - 9_000_000i128;
        proof {
            let ui = 11 * (x as int) - 9 * sc();
            assert(7_562_500 * ui * ui == 7_562_500 * (ui * ui) && 0 <= ui * ui)
                by (nonlinear_arith);
            assert(-46_000_000_000_000 <= 7_562_500 * ui <= 46_000_000_000_000)
                by (nonlinear_arith)
                requires
                    -6_000_000 <= ui <= 6_000_000,
            ;
            assert(7_562_500 * ui * ui <= 280_000_000_000_000_000_000) by (nonlinear_arith)
                requires
                    -6_000_000 <= ui <= 6_000_000,
                    -46_000_000_000_000 <= 7_562_500 * ui <= 46_000_000_000_000,
            ;
        }
        (div_nn128(n1 * u * u, 121 * s2) as i64) + 937_500
    } else {
        let u: i128 = 22 * (x as i128) - 21_000_000i128;
        proof {
            let ui = 22 * (x as int) - 21 * sc();
            assert(7_562_500 * ui * ui == 7_562_500 * (ui * ui) && 0 <= ui * ui)
                by (nonlinear_arith);
            assert(-46_000_000_000_000 <= 7_562_500 * ui <= 46_000_000_000_000)
                by (nonlinear_arith)
                requires
                    -6_000_000 <= ui <= 6_000_000,
            ;
            assert(7_562_500 * ui * ui <= 280_000_000_000_000_000_000) by (nonlinear_arith)
                requires
                    -6_000_000 <= ui <= 6_000_000,
                    -46_000_000_000_000 <= 7_562_500 * ui <= 46_000_000_000_000,
            ;
        }
        (div_nn128(n1 * u * u, 484 * s2) as i64) + 984_375
    }
}

/// The fixed-point constant behind the back family's overshoot.
pub const BACK_C1: i64 = 1_701_580;

/// `BACK_C1 + 1`, the back family's cubic coefficient.
pub const BACK_C3: i64 = 2_701_580;

/// `BACK_C1 * 1.525`, the in-out back overshoot, rounded to a
/// millionth.
pub const BACK_C2: i64 = 2_594_910;

/// The thirty easing curves: linear, and in / out / in-out variants
/// of sine, cubic, quint, circ, elastic, quad, quart, expo, back and
/// bounce.
#[derive(Clone, Copy, Debug, PartialEq, Eq, Structural)]
pub enum TweenKind {
    Linear,
    EaseInSine,
    EaseOutSine,
    EaseInOutSine,
    EaseInCubic,
    EaseOutCubic,
    EaseInOutCubic,
    EaseInQuint,
    EaseOutQuint,
    EaseInOutQuint,
    EaseInCirc,
    EaseOutCirc,
    EaseInOutCirc,
    EaseInElastic,
    EaseOutElastic,
    EaseInOutElastic,
    EaseInQuad,
    EaseOutQuad,
    EaseInOutQuad,
    EaseInQuart,
    EaseOutQuart,
    EaseInOutQuart,
    EaseInExpo,
    EaseOutExpo,
    EaseInOutExpo,
    EaseInBack,
    EaseOutBack,
    EaseInOutBack,
    EaseInBounce,
    EaseOutBounce,
    EaseInOutBounce,
}

/// The eased progress `curve(x)` of each kind, on `[0, SCALE]`.
pub open spec fn curve_spec(k: TweenKind, x: int) -> int {
    match k {
        TweenKind::Linear => x,
        TweenKind::EaseInSine => sc() - qsin(sc() - x),
        TweenKind::EaseOutSine => qsin(x),
        TweenKind::EaseInOutSine => (sc() - sinq(2 * x + sc())) / 2,
        TweenKind::EaseInCubic => cube_term(x),
        TweenKind::EaseOutCubic => sc() - cube_term(sc() - x),
        TweenKind::EaseInOutCubic => if 2 * x < sc() {
            cube_term(2 * x) / 2
        } else {
            sc() - cube_term(2 * sc() - 2 * x) / 2
        },
        TweenKind::EaseInQuint => quint_term(x),
        TweenKind::EaseOutQuint => sc() - quint_term(sc() - x),
        TweenKind::EaseInOutQuint => if 2 * x < sc() {
            quint_term(2 * x) / 2
        } else {
            sc() - quint_term(2 * sc() - 2 * x) / 2
        },
        TweenKind::EaseInCirc => sc() - int_sqrt(sc() * sc() - x * x),
        TweenKind::EaseOutCirc => int_sqrt(sc() * sc() - (sc() - x) * (sc() - x)),
        TweenKind::EaseInOutCirc => if 2 * x < sc() {
            (sc() - int_sqrt(sc() * sc() - (2 * x) * (2 * x))) / 2
        } else {
            (int_sqrt(sc() * sc() - (2 * sc() - 2 * x) * (2 * sc() - 2 * x)) + sc()) / 2
        },
        TweenKind::EaseInElastic => if x == 0 {
            0
        } else if x == sc() {
            sc()
        } else {
            -elastic_term(10 * sc() - 10 * x, -((43 * sc() - 40 * x) / 3), false)
        },
        TweenKind::EaseOutElastic => if x == sc() {
            sc()
        } else {
            sc() + elastic_term(
                10 * x,
                if 40 * x >= 3 * sc() {
                    (40 * x - 3 * sc()) / 3
                } else {
                    -((3 * sc() - 40 * x) / 3)
                },
                false,
            )
        },
        TweenKind::EaseInOutElastic => if x == 0 {
            0
        } else if x == sc() {
            sc()
        } else {
            let a = if 160 * x >= 89 * sc() {
                (160 * x - 89 * sc()) / 9
            } else {
                -((89 * sc() - 160 * x) / 9)
            };
            if 2 * x < sc() {
                -elastic_term(10 * sc() - 20 * x, a, true)
            } else {
                elastic_term(20 * x - 10 * sc(), a, true)
            }
        },
        TweenKind::EaseInQuad => quad_term(x),
        TweenKind::EaseOutQuad => sc() - quad_term(sc() - x),
        TweenKind::EaseInOutQuad => if 2 * x < sc() {
            quad_term(2 * x) / 2
        } else {
            sc() - quad_term(2 * sc() - 2 * x) / 2
        },
        TweenKind::EaseInQuart => quart_term(x),
        TweenKind::EaseOutQuart => sc() - quart_term(sc() - x),
        TweenKind::EaseInOutQuart => if 2 * x < sc() {
            quart_term(2 * x) / 2
        } else {
            sc() - quart_term(2 * sc() - 2 * x) / 2
        },
        TweenKind::EaseInExpo => if x == 0 {
            0
        } else {
            pow2s(10 * sc() - 10 * x)
        },
        TweenKind::EaseOutExpo => if x == sc() {
            sc()
        } else {
            sc() - pow2s(10 * x)
        },
        TweenKind::EaseInOutExpo => if x == 0 {
            0
        } else if x == sc() {
            sc()
        } else if 2 * x < sc() {
            pow2s(10 * sc() - 20 * x) / 2
        } else {
            sc() - pow2s(20 * x - 10 * sc()) / 2
        },
        TweenKind::EaseInBack => back_term(x, BACK_C3 as int, BACK_C1 as int, false),
        TweenKind::EaseOutBack => sc() - back_term(sc() - x, BACK_C3 as int, BACK_C1 as int, false),
        TweenKind::EaseInOutBack => if 2 * x < sc() {
            back_term(2 * x, BACK_C2 as int + sc(), BACK_C2 as int, true)
        } else {
            sc() - back_term(2 * sc() - 2 * x, BACK_C2 as int + sc(), BACK_C2 as int, true)
        },
        TweenKind::EaseInBounce => sc() - out_bounce(sc() - x),
        TweenKind::EaseOutBounce => out_bounce(x),
        TweenKind::EaseInOutBounce => if 2 * x < sc() {
            (sc() - out_bounce(sc() - 2 * x)) / 2
        } else {
            (sc() + out_bounce(2 * x - sc())) / 2
        },
    }
}

impl TweenKind {
    /// Evaluates this curve at `x`.
    pub fn process(&self, x: i64) -> (r: i64)
        requires
            0 <= x <= SCALE,
        ensures
            r as int == curve_spec(*self, x as int),
    {
        match self {
            TweenKind::Linear => x,
            TweenKind::EaseInSine => SCALE - qsin_x(SCALE - x),
            TweenKind::EaseOutSine => qsin_x(x),
            TweenKind::EaseInOutSine => {
                let sq = sinq_x(2 * x + SCALE);
                div_nn(SCALE - sq, 2)
            },
            TweenKind::EaseInCubic => cube_term_x(x),
            TweenKind::EaseOutCubic => SCALE - cube_term_x(SCALE - x),
            TweenKind::EaseInOutCubic => if 2 * x < SCALE {
                div_nn(cube_term_x(2 * x), 2)
            } else {
                SCALE - div_nn(cube_term_x(2 * SCALE - 2 * x), 2)
            },
            TweenKind::EaseInQuint => quint_term_x(x),
            TweenKind::EaseOutQuint => SCALE - quint_term_x(SCALE - x),
            TweenKind::EaseInOutQuint => if 2 * x < SCALE {
                div_nn(quint_term_x(2 * x), 2)
            } else {
                SCALE - div_nn(quint_term_x(2 * SCALE - 2 * x), 2)
            },
            TweenKind::EaseInCirc => {
                proof {
                    assert(0 <= x * x <= sc() * sc()) by (nonlinear_arith)
                        requires
                            0 <= x <= 1_000_000,
                    ;
                }
                SCALE - isqrt(((SCALE * SCALE - x * x) as u64))
            },
            TweenKind::EaseOutCirc => {
                let u = SCALE - x;
                proof {
                    assert(0 <= u * u <= sc() * sc()) by (nonlinear_arith)
                        requires
                            0 <= u <= 1_000_000,
                    ;
                }
                isqrt(((SCALE * SCALE - u * u) as u64))
            },
            TweenKind::EaseInOutCirc => if 2 * x < SCALE {
                let t = 2 * x;
                proof {
                    assert(0 <= t * t <= sc() * sc()) by (nonlinear_arith)
                        requires
                            0 <= t <= 1_000_000,
                    ;
                }
                let sq = isqrt(((SCALE * SCALE - t * t) as u64));
                proof {
                    assert(sq <= SCALE) by (nonlinear_arith)
                        requires
                            0 <= sq,
                            sq * sq <= 1_000_000_000_000,
                    ;
                }
                div_nn(SCALE - sq, 2)
            } else {
                let u = 2 * SCALE - 2 * x;
                proof {
                    assert(0 <= u * u <= sc() * sc()) by (nonlinear_arith)
                        requires
                            0 <= u <= 1_000_000,
                    ;
                }
                div_nn(isqrt(((SCALE * SCALE - u * u) as u64)) + SCALE, 2)
            },
            TweenKind::EaseInElastic => if x == 0 {
                0
            } else if x == SCALE {
                SCALE
            } else {
                let a = -div_nn(43 * SCALE - 40 * x, 3);
                -elastic_term_x(10 * SCALE - 10 * x, a, false)
            },
            TweenKind::EaseOutElastic => if x == SCALE {
                SCALE
            } else {
                let a = if 40 * x >= 3 * SCALE {
                    div_nn(40 * x - 3 * SCALE, 3)
                } else {
                    -div_nn(3 * SCALE - 40 * x, 3)
                };
                SCALE + elastic_term_x(10 * x, a, false)
            },
            TweenKind::EaseInOutElastic => if x == 0 {
                0
            } else if x == SCALE {
                SCALE
            } else {
                let a = if 160 * x >= 89 * SCALE {
                    div_nn(160 * x - 89 * SCALE, 9)
                } else {
                    -div_nn(89 * SCALE - 160 * x, 9)
                };
                if 2 * x < SCALE {
                    -elastic_term_x(10 * SCALE - 20 * x, a, true)
                } else {
                    elastic_term_x(20 * x - 10 * SCALE, a, true)
                }
            },
            TweenKind::EaseInQuad => quad_term_x(x),
            TweenKind::EaseOutQuad => SCALE - quad_term_x(SCALE - x),
            TweenKind::EaseInOutQuad => if 2 * x < SCALE {
                div_nn(quad_term_x(2 * x), 2)
            } else {
                SCALE - div_nn(quad_term_x(2 * SCALE - 2 * x), 2)
            },
            TweenKind::EaseInQuart => quart_term_x(x),
            TweenKind::EaseOutQuart => SCALE - quart_term_x(SCALE - x),
            TweenKind::EaseInOutQuart => if 2 * x < SCALE {
                div_nn(quart_term_x(2 * x), 2)
            } else {
                SCALE - div_nn(quart_term_x(2 * SCALE - 2 * x), 2)
            },
            TweenKind::EaseInExpo => if x == 0 {
                0
            } else {
                pow2s_x(10 * SCALE - 10 * x)
            },
            TweenKind::EaseOutExpo => if x == SCALE {
                SCALE
            } else {
                SCALE - pow2s_x(10 * x)
            },
            TweenKind::EaseInOutExpo => if x == 0 {
                0
            } else if x == SCALE {
                SCALE
            } else if 2 * x < SCALE {
                div_nn(pow2s_x(10 * SCALE - 20 * x), 2)
            } else {
                SCALE - div_nn(pow2s_x(20 * x - 10 * SCALE), 2)
            },
            TweenKind::EaseInBack => back_term_x(x, BACK_C3, BACK_C1, false),
            TweenKind::EaseOutBack => SCALE - back_term_x(SCALE - x, BACK_C3, BACK_C1, false),
            TweenKind::EaseInOutBack => if 2 * x < SCALE {
                back_term_x(2 * x, BACK_C2 + SCALE, BACK_C2, true)
            } else {
                SCALE - back_term_x(2 * SCALE - 2 * x, BACK_C2 + SCALE, BACK_C2, true)
            },
            TweenKind::EaseInBounce => SCALE - out_bounce_x(SCALE - x),
            TweenKind::EaseOutBounce => out_bounce_x(x),
            TweenKind::EaseInOutBounce => if 2 * x < SCALE {
                div_nn(SCALE - out_bounce_x(SCALE - 2 * x), 2)
            } else {
                div_nn(SCALE + out_bounce_x(2 * x - SCALE), 2)
            },
        }
    }
}

/// Every easing kind starts at 0 and ends at `SCALE` exactly:
/// `curve(0) == 0` and `curve(SCALE) == SCALE`.
pub proof fn lemma_curve_boundaries(k: TweenKind)
    ensures
        curve_spec(k, 0) == 0,
        curve_spec(k, sc()) == sc(),
{
    lemma_qsin_bounds(0);
    lemma_qsin_bounds(sc());
    assert(qsin(0) == 0);
    assert(qsin(sc()) == 4_000_000_000_000_000_000int / 4_000_000_000_000) by {
        assert(4 * sc() * (2 * sc() - sc()) * sc() == 4_000_000_000_000_000_000);
        assert(5 * sc() * sc() - sc() * (2 * sc() - sc()) == 4_000_000_000_000);
    }
    assert(4_000_000_000_000_000_000int / 4_000_000_000_000 == 1_000_000) by {
        vstd::arithmetic::div_mod::lemma_div_by_multiple(1_000_000, 4_000_000_000_000);
    }
    assert(sinq(sc()) == sc()) by {
        vstd::arithmetic::div_mod::lemma_small_mod(1_000_000nat, 4_000_000nat);
    }
    assert(sinq(3 * sc()) == -sc()) by {
        vstd::arithmetic::div_mod::lemma_small_mod(3_000_000nat, 4_000_000nat);
    }
    assert(pow2s(0) == sc()) by {
        vstd::arithmetic::div_mod::lemma_small_mod(0nat, 1_000_000nat);
        vstd::arithmetic::div_mod::lemma_basic_div(0, sc());
    }
    assert(int_sqrt(0) == 0) by {
        lemma_int_sqrt_is(0, 0);
    }
    assert(int_sqrt(sc() * sc()) == sc()) by {
        lemma_int_sqrt_is(sc() * sc(), sc());
    }
    match k {
        TweenKind::EaseInOutSine => {
            assert(curve_spec(k, 0) == (sc() - sinq(sc())) / 2);
            assert(curve_spec(k, sc()) == (sc() - sinq(3 * sc())) / 2);
        },
        TweenKind::EaseInOutCubic => {
            assert(cube_term(0) == 0);
            assert(cube_term(2 * sc() - 2 * sc()) == 0);
        },
        TweenKind::EaseInOutQuint => {
            assert(quint_term(0) == 0);
        },
        TweenKind::EaseInCirc => {
            assert(curve_spec(k, 0) == sc() - int_sqrt(sc() * sc() - 0 * 0));
            assert(curve_spec(k, sc()) == sc() - int_sqrt(sc() * sc() - sc() * sc()));
        },
        TweenKind::EaseOutCirc => {
            assert(curve_spec(k, 0) == int_sqrt(sc() * sc() - sc() * sc()));
            assert(curve_spec(k, sc()) == int_sqrt(sc() * sc() - 0 * 0));
        },
        TweenKind::EaseInOutCirc => {
            assert(curve_spec(k, 0) == (sc() - int_sqrt(sc() * sc() - 0 * 0)) / 2);
            assert(curve_spec(k, sc()) == (int_sqrt(sc() * sc() - 0 * 0) + sc()) / 2);
        },
        TweenKind::EaseOutElastic => {
            assert(curve_spec(k, 0) == sc() + elastic_term(0, -(3 * sc() / 3), false));
            assert(3 * sc() / 3 == sc()) by {
                vstd::arithmetic::div_mod::lemma_div_by_multiple(1_000_000, 3);
            }
            assert(sinq(-sc()) == -sc()) by {
                vstd::arithmetic::div_mod::lemma_fundamental_div_mod_converse_mod(
                    -1_000_000,
                    4_000_000,
                    -1,
                    3_000_000,
                );
            }
            assert(elastic_term(0, -sc(), false) == -(pow2s(0) * sc() / sc()));
            assert(pow2s(0) * sc() / sc() == sc()) by {
                vstd::arithmetic::div_mod::lemma_div_by_multiple(1_000_000, 1_000_000);
            }
        },
        TweenKind::EaseOutExpo => {
            assert(curve_spec(k, 0) == sc() - pow2s(0));
        },
        TweenKind::EaseInBack => {
            assert(curve_spec(k, 0) == -(0 * 0 * ((BACK_C1 as int) * sc() - (BACK_C3 as int) * 0)
                / (sc() * sc() * sc())));
            assert(curve_spec(k, sc()) == sc() * sc() * ((BACK_C3 as int) * sc() - (BACK_C1 as int)
                * sc()) / (sc() * sc() * sc()));
            assert(sc() * sc() * ((BACK_C3 as int) * sc() - (BACK_C1 as int) * sc()) == sc() * (sc()
                * sc() * sc())) by (nonlinear_arith)
                requires
                    sc() == 1_000_000,
                    BACK_C3 == 2_701_580i64,
                    BACK_C1 == 1_701_580i64,
            ;
            vstd::arithmetic::div_mod::lemma_div_by_multiple(sc(), sc() * sc() * sc());
        },
        TweenKind::EaseOutBack => {
            assert(curve_spec(k, sc()) == sc() - back_term(0, BACK_C3 as int, BACK_C1 as int, false));
            assert(back_term(0, BACK_C3 as int, BACK_C1 as int, false) == -(0 * 0 * ((
            BACK_C1 as int) * sc() - (BACK_C3 as int) * 0) / (sc() * sc() * sc())));
            assert(curve_spec(k, 0) == sc() - back_term(sc(), BACK_C3 as int, BACK_C1 as int, false));
            assert(back_term(sc(), BACK_C3 as int, BACK_C1 as int, false) == sc() * sc() * ((
            BACK_C3 as int) * sc() - (BACK_C1 as int) * sc()) / (sc() * sc() * sc()));
            assert(sc() * sc() * ((BACK_C3 as int) * sc() - (BACK_C1 as int) * sc()) == sc() * (sc()
                * sc() * sc())) by (nonlinear_arith)
                requires
                    sc() == 1_000_000,
                    BACK_C3 == 2_701_580i64,
                    BACK_C1 == 1_701_580i64,
            ;
            vstd::arithmetic::div_mod::lemma_div_by_multiple(sc(), sc() * sc() * sc());
        },
        TweenKind::EaseInOutBack => {
            assert(curve_spec(k, 0) == back_term(0, BACK_C2 as int + sc(), BACK_C2 as int, true));
            assert(curve_spec(k, sc()) == sc() - back_term(
                0,
                BACK_C2 as int + sc(),
                BACK_C2 as int,
                true,
            ));
            assert(back_term(0, BACK_C2 as int + sc(), BACK_C2 as int, true) == -(0 * 0 * ((
            BACK_C2 as int) * sc() - (BACK_C2 as int + sc()) * 0) / (2 * sc() * sc() * sc())));
        },
        TweenKind::EaseInBounce => {
            assert(curve_spec(k, 0) == sc() - out_bounce(sc()));
            assert(curve_spec(k, sc()) == sc() - out_bounce(0));
            lemma_out_bounce_at_ends();
        },
        TweenKind::EaseOutBounce => {
            lemma_out_bounce_at_ends();
        },
        TweenKind::EaseInOutBounce => {
            assert(curve_spec(k, 0) == (sc() - out_bounce(sc())) / 2);
            assert(curve_spec(k, sc()) == (sc() + out_bounce(sc())) / 2);
            lemma_out_bounce_at_ends();
        },
        _ => {
        },
    }
}

/// The bounce curve's exact end values.
proof fn lemma_out_bounce_at_ends()
    ensures
        out_bounce(0) == 0,
        out_bounce(sc()) == sc(),
{
    assert(out_bounce(0) == 7_562_500int * 0 * 0 / (sc() * sc()));
    let u = 22 * sc() - 21 * sc();
    assert(u == sc());
    assert(out_bounce(sc()) == 7_562_500 * sc() * sc() / (484 * sc() * sc()) + 984_375);
    assert(7_562_500 * sc() * sc() == 15_625 * (484 * sc() * sc())) by (nonlinear_arith)
        requires
            sc() == 1_000_000,
    ;
    vstd::arithmetic::div_mod::lemma_div_by_multiple(15_625, 484 * sc() * sc());
}

/// A tween in progress: the animated payload, the normalized time
/// already covered, the total duration, the easing kind and whether
/// the tween is running.
#[derive(Clone, Debug)]
pub struct TweenConfig<T> {
    pub tween_data: T,
    pub at_time: i64,
    pub time_in_seconds: i64,
    pub tween_kind: TweenKind,
    pub run: bool,
}

impl<T> TweenConfig<T> {
    /// Progress within `[0, SCALE]` and a positive duration.
    pub open spec fn wf(self) -> bool {
        &&& 0 <= self.at_time <= SCALE
        &&& 1 <= self.time_in_seconds <= MAX_MAGNITUDE
    }
}

/// The progress after one frame: advanced by the frame's share of the
/// duration, clamped at the end.
pub open spec fn advanced_time<T>(s: TweenConfig<T>, delta: int) -> int {
    let inc = delta * sc() / (s.time_in_seconds as int);
    if s.at_time + inc >= sc() {
        sc()
    } else {
        s.at_time + inc
    }
}

/// Advances a [`TweenConfig`] state each `process` pass: while `run`
/// holds and the tween has not finished, the progress moves by
/// `delta / time_in_seconds`, the easing kind maps it to the eased
/// value, and the update function folds that value into the payload.
/// Once the progress reaches the end, further passes are no-ops until
/// the state is reset externally.
pub struct Tween<Func> {
    pub func: Func,
}

impl<T, Func: Fn(i64, &T) -> T> Component<TweenConfig<T>> for Tween<Func> {
    type Input = Func;

    open spec fn input_inv(input: Self::Input) -> bool {
        true
    }

    open spec fn made(input: Self::Input) -> Self {
        Tween { func: input }
    }

    open spec fn inv(self) -> bool {
        true
    }

    open spec fn process_req(self, ctx: Context, s: TweenConfig<T>) -> bool {
        &&& ctx.wf()
        &&& s.wf()
        &&& forall|e: i64, d: T| call_requires(self.func, (e, &d))
    }

    open spec fn process_rel(
        self,
        ctx: Context,
        s: TweenConfig<T>,
        new_self: Self,
        new_s: TweenConfig<T>,
    ) -> bool {
        &&& new_self == self
        &&& if s.run && s.at_time < SCALE {
            let at2 = advanced_time(s, ctx.spec_delta());
            &&& new_s.at_time == at2
            &&& new_s.time_in_seconds == s.time_in_seconds
            &&& new_s.tween_kind == s.tween_kind
            &&& new_s.run == s.run
            &&& call_ensures(
                self.func,
                (curve_spec(s.tween_kind, at2) as i64, &s.tween_data),
                new_s.tween_data,
            )
        } else {
            new_s == s
        }
    }

    open spec fn render_req(self, ctx: Context, s: TweenConfig<T>) -> bool {
        true
    }

    open spec fn render_rel(self, ctx: Context, s: TweenConfig<T>, emitted: Seq<DrawCmd>) -> bool {
        emitted == Seq::<DrawCmd>::empty()
    }

    open spec fn ui_req(self, ctx: Context, ui: Ui, s: TweenConfig<T>) -> bool {
        true
    }

    open spec fn ui_rel(
        self,
        ctx: Context,
        ui: Ui,
        s: TweenConfig<T>,
        new_self: Self,
        new_ui: Ui,
        new_s: TweenConfig<T>,
    ) -> bool {
        new_self == self && new_ui == ui && new_s == s
    }

    fn instantiate(input: Self::Input) -> (r: Self) {
        Tween { func: input }
    }

    fn process(&mut self, ctx: &Context, s: &mut TweenConfig<T>) {
        if s.run && s.at_time < SCALE {
            let delta = ctx.get_delta();
            let inc = div_nn(delta * SCALE, s.time_in_seconds);
            let at2 = if s.at_time + inc >= SCALE {
                SCALE
            } else {
                s.at_time + inc
            };
            s.at_time = at2;
            let eased = s.tween_kind.process(at2);
            let folded = (self.func)(eased, &s.tween_data);
            s.tween_data = folded;
        }
    }

    fn render(&self, ctx: &Context, s: &TweenConfig<T>, out: &mut Frame) {
        proof {
            assert(out@.take(out@.len() as int) =~= out@);
            assert(out@.skip(out@.len() as int) =~= Seq::<DrawCmd>::empty());
        }
    }

    fn ui(&mut self, ctx: &Context, ui: &mut Ui, s: &mut TweenConfig<T>) {
    }
}

/// While running, one `process` pass never moves the progress
/// backwards, and it stays within `[0, SCALE]`.
pub proof fn lemma_tween_time_monotonic<T, Func: Fn(i64, &T) -> T>(
    tw: Tween<Func>,
    ctx: Context,
    s: TweenConfig<T>,
    new_tw: Tween<Func>,
    new_s: TweenConfig<T>,
)
    requires
        ctx.wf(),
        s.wf(),
        tw.process_rel(ctx, s, new_tw, new_s),
    ensures
        s.at_time <= new_s.at_time <= SCALE,
{
    if s.run && s.at_time < SCALE {
        let inc = ctx.spec_delta() * sc() / (s.time_in_seconds as int);
        assert(0 <= ctx.spec_delta() * sc()) by (nonlinear_arith)
            requires
                0 <= ctx.spec_delta(),
                sc() == 1_000_000,
        ;
        vstd::arithmetic::div_mod::lemma_div_pos_is_pos(
            ctx.spec_delta() * sc(),
            s.time_in_seconds as int,
        );
    }
}

} // verus!
