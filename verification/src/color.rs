//! Colours of the control panel, as exact quotients per channel.

use crate::units::{clamp, clamped, Ratio, WEIGHT_ONE};
use vstd::arithmetic::div_mod::{
    lemma_fundamental_div_mod, lemma_fundamental_div_mod_converse, lemma_mod_bound,
};
use vstd::prelude::*;

verus! {

/// The largest numerator and denominator of a colour quantity that comes in from
/// outside.
pub const COLOR_MAX: i128 = 1_000_000_000_000;

/// The golden-ratio hue step, as a quotient of `HUE_DEN`.
pub const HUE_STEP: u128 = 6_180_339_887;

pub const HUE_DEN: u128 = 10_000_000_000;

/// A quotient small enough for exact colour arithmetic.
pub open spec fn color_input(r: Ratio) -> bool {
    0 < r.den <= COLOR_MAX && -COLOR_MAX <= r.num <= COLOR_MAX
}

/// The remainder of `a` by `b` that has the sign of `a`.
pub open spec fn signed_rem(a: int, b: int) -> int {
    if a >= 0 {
        a % b
    } else {
        -((-a) % b)
    }
}

pub open spec fn magnitude(a: int) -> int {
    if a >= 0 {
        a
    } else {
        -a
    }
}

/// The common denominator of the channels of a colour given by hue, saturation and
/// value.
pub open spec fn hsv_den(h: Ratio, s: Ratio, v: Ratio) -> int {
    v.den * s.den * h.den
}

/// Chroma `v * s`, over [`hsv_den`].
pub open spec fn chroma(h: Ratio, s: Ratio, v: Ratio) -> int {
    v.num * s.num * h.den
}

/// The second-largest component `c * (1 - |6h mod 2 - 1|)`, over [`hsv_den`].
pub open spec fn middle(h: Ratio, s: Ratio, v: Ratio) -> int {
    v.num * s.num * (h.den - magnitude(signed_rem(6 * h.num, 2 * h.den) - h.den))
}

/// The offset `v - c` that lifts every channel, over [`hsv_den`].
pub open spec fn lift(h: Ratio, s: Ratio, v: Ratio) -> int {
    (v.num * s.den - v.num * s.num) * h.den
}

/// The channels, over [`hsv_den`], of the colour with hue `h`, saturation `s` and
/// value `v`. The six sectors of the hue circle each give the chroma to one channel,
/// the middle component to another and nothing to the third.
pub open spec fn hsv_channels(h: Ratio, s: Ratio, v: Ratio) -> (int, int, int) {
    let c = chroma(h, s, v);
    let x = middle(h, s, v);
    let m = lift(h, s, v);
    let six_h = 6 * h.num;
    if six_h < h.den {
        (c + m, x + m, m)
    } else if six_h < 2 * h.den {
        (x + m, c + m, m)
    } else if six_h < 3 * h.den {
        (m, c + m, x + m)
    } else if six_h < 4 * h.den {
        (m, x + m, c + m)
    } else if six_h < 5 * h.den {
        (x + m, m, c + m)
    } else {
        (c + m, m, x + m)
    }
}

/// A channel pulled towards the gray 0.55 with saturation 0.55.
pub open spec fn muted(c: Ratio) -> Ratio {
    Ratio {
        num: (5500 * c.den + 55 * (100 * c.num - 55 * c.den)) as i128,
        den: (10000 * c.den) as i128,
    }
}

/// The hue of type `t`: the fractional part of `t` golden-ratio steps.
pub open spec fn type_hue(t: int) -> Ratio {
    Ratio { num: ((t * HUE_STEP) % (HUE_DEN as int)) as i128, den: HUE_DEN as i128 }
}

/// The colour of a type: full value, saturation 0.85, then muted.
pub open spec fn type_color(t: int) -> [Ratio; 4] {
    let h = type_hue(t);
    let s = Ratio::hundredths(85);
    let v = Ratio { num: 1, den: 1 };
    let d = hsv_den(h, s, v) as i128;
    let (r, g, b) = hsv_channels(h, s, v);
    [
        muted(Ratio { num: r as i128, den: d }),
        muted(Ratio { num: g as i128, den: d }),
        muted(Ratio { num: b as i128, den: d }),
        Ratio { num: 1, den: 1 },
    ]
}

/// The channel `a / WEIGHT_ONE` of the way from `from` to `to`, both in hundredths.
pub open spec fn blend(from: int, to: int, a: int) -> Ratio {
    Ratio { num: (from * WEIGHT_ONE + (to - from) * a) as i128, den: (100 * WEIGHT_ONE) as i128 }
}

/// The colour of a matrix entry: neutral gray at 0, rust towards -1, teal towards 1.
pub open spec fn value_color(v: int) -> [Ratio; 4] {
    let t = clamped(v, -WEIGHT_ONE, WEIGHT_ONE as int);
    let a = magnitude(t);
    if t >= 0 {
        [blend(24, 25, a), blend(24, 55, a), blend(27, 48, a), Ratio { num: 1, den: 1 }]
    } else {
        [blend(24, 55, a), blend(24, 30, a), blend(27, 28, a), Ratio { num: 1, den: 1 }]
    }
}

/// A channel raised by 0.35, but not above 1.
pub open spec fn brightened(c: Ratio) -> Ratio {
    if 100 * c.num + 35 * c.den < 100 * c.den {
        Ratio { num: (100 * c.num + 35 * c.den) as i128, den: (100 * c.den) as i128 }
    } else {
        Ratio { num: 1, den: 1 }
    }
}

/// A colour whose first three channels are raised by 0.35.
pub open spec fn brightened_color(c: [Ratio; 4]) -> [Ratio; 4] {
    [brightened(c[0]), brightened(c[1]), brightened(c[2]), c[3]]
}

/// Magnitudes of the intermediate results of [`hsv_to_rgb`].
proof fn lemma_hsv_bounds(h: Ratio, s: Ratio, v: Ratio, w: int)
    requires
        color_input(h),
        color_input(s),
        color_input(v),
        -2 * h.den <= w <= 2 * h.den,
    ensures
        -1_000_000_000_000_000_000_000_000 <= v.num * s.num <= 1_000_000_000_000_000_000_000_000,
        -1_000_000_000_000_000_000_000_000 <= v.num * s.den <= 1_000_000_000_000_000_000_000_000,
        0 < v.den * s.den <= 1_000_000_000_000_000_000_000_000,
        0 < v.den * s.den * h.den <= 1_000_000_000_000_000_000_000_000_000_000_000_000,
        -1_000_000_000_000_000_000_000_000_000_000_000_000 <= v.num * s.num * h.den
            <= 1_000_000_000_000_000_000_000_000_000_000_000_000,
        -2_000_000_000_000_000_000_000_000_000_000_000_000 <= v.num * s.num * w
            <= 2_000_000_000_000_000_000_000_000_000_000_000_000,
        -2_000_000_000_000_000_000_000_000_000_000_000_000 <= (v.num * s.den - v.num * s.num) * h.den
            <= 2_000_000_000_000_000_000_000_000_000_000_000_000,
{
    lemma_mul_bound(v.num as int, s.num as int, 1_000_000_000_000, 1_000_000_000_000);
    lemma_mul_bound(v.num as int, s.den as int, 1_000_000_000_000, 1_000_000_000_000);
    lemma_mul_bound(v.den as int, s.den as int, 1_000_000_000_000, 1_000_000_000_000);
    let k: int = 1_000_000_000_000_000_000_000_000;
    lemma_mul_bound(v.den * s.den, h.den as int, k, 1_000_000_000_000);
    lemma_mul_bound(v.num * s.num, h.den as int, k, 1_000_000_000_000);
    lemma_mul_bound(v.num * s.num, w, k, 2_000_000_000_000);
    lemma_mul_bound(v.num * s.den - v.num * s.num, h.den as int, 2 * k, 1_000_000_000_000);
    assert(v.den * s.den > 0) by (nonlinear_arith)
        requires
            v.den > 0,
            s.den > 0,
    ;
    assert(v.den * s.den * h.den > 0) by (nonlinear_arith)
        requires
            v.den * s.den > 0,
            h.den > 0,
    ;
}

proof fn lemma_mul_bound(a: int, b: int, p: int, q: int)
    by (nonlinear_arith)
    requires
        -p <= a <= p,
        -q <= b <= q,
    ensures
        -(p * q) <= a * b <= p * q,
{
}

/// The colour with hue `h`, saturation `s` and value `v`.
pub fn hsv_to_rgb(h: Ratio, s: Ratio, v: Ratio) -> (rgb: [Ratio; 3])
    requires
        color_input(h),
        color_input(s),
        color_input(v),
    ensures
        rgb[0].den == hsv_den(h, s, v),
        rgb[1].den == hsv_den(h, s, v),
        rgb[2].den == hsv_den(h, s, v),
        (rgb[0].num as int, rgb[1].num as int, rgb[2].num as int) == hsv_channels(h, s, v),
{
    let hp: i128 = 6 * h.num;
    let rem: i128 = hp % (2 * h.den);
    let off: i128 = rem - h.den;
    proof {
        lemma_mod_bound(magnitude(hp as int), 2 * h.den);
    }
    let dist: i128 = if off >= 0 {
        off
    } else {
        -off
    };
    let rest: i128 = h.den - dist;
    proof {
        lemma_hsv_bounds(h, s, v, rest as int);
    }
    let vs: i128 = v.num * s.num;
    let den: i128 = v.den * s.den * h.den;
    let c: i128 = vs * h.den;
    let x: i128 = vs * rest;
    let m: i128 = (v.num * s.den - vs) * h.den;
    let rgb: (i128, i128, i128) = if hp < h.den {
        (c, x, 0)
    } else if hp < 2 * h.den {
        (x, c, 0)
    } else if hp < 3 * h.den {
        (0, c, x)
    } else if hp < 4 * h.den {
        (0, x, c)
    } else if hp < 5 * h.den {
        (x, 0, c)
    } else {
        (c, 0, x)
    };
    [
        Ratio { num: rgb.0 + m, den },
        Ratio { num: rgb.1 + m, den },
        Ratio { num: rgb.2 + m, den },
    ]
}

/// A channel pulled towards the gray 0.55 with saturation 0.55.
fn mute(c: Ratio) -> (r: Ratio)
    requires
        c.is_unit(),
        c.den <= COLOR_MAX,
    ensures
        r == muted(c),
{
    Ratio {
        num: 5500 * c.den + 55 * (100 * c.num - 55 * c.den),
        den: 10000 * c.den,
    }
}

/// The legend colour of type `t`. Hues are spread by the golden ratio, so that the
/// panel's header swatches match the particles, and are muted so that they read as a
/// legend.
pub fn type_color_rgb(t: u32) -> (color: [Ratio; 4])
    ensures
        color == type_color(t as int),
{
    let hue: u128 = (t as u128 * HUE_STEP) % HUE_DEN;
    let h = Ratio { num: hue as i128, den: HUE_DEN as i128 };
    let s = Ratio::hundredths(85);
    let v = Ratio { num: 1, den: 1 };
    let rgb = hsv_to_rgb(h, s, v);
    proof {
        assert(h == type_hue(t as int));
        law_hsv_range(h, s, v);
    }
    [mute(rgb[0]), mute(rgb[1]), mute(rgb[2]), Ratio { num: 1, den: 1 }]
}

/// One channel of the scale of [`matrix_value_color`].
fn blend_channel(from: i128, to: i128, a: i128) -> (r: Ratio)
    requires
        0 <= from <= 100,
        0 <= to <= 100,
        0 <= a <= WEIGHT_ONE,
    ensures
        r == blend(from as int, to as int, a as int),
{
    let one: i128 = WEIGHT_ONE as i128;
    proof {
        lemma_mul_bound(from as int, one as int, 100, one as int);
        lemma_mul_bound(to - from, a as int, 100, one as int);
    }
    Ratio { num: from * one + (to - from) * a, den: 100 * one }
}

/// The colour of a matrix entry of weight `v`: a muted diverging scale, dark neutral
/// gray at 0, soft rust towards repulsion, soft teal towards attraction.
pub fn matrix_value_color(v: i64) -> (color: [Ratio; 4])
    ensures
        color == value_color(v as int),
{
    let t: i128 = clamp(v as i128, -(WEIGHT_ONE as i128), WEIGHT_ONE as i128);
    let opaque = Ratio { num: 1, den: 1 };
    if t >= 0 {
        [blend_channel(24, 25, t), blend_channel(24, 55, t), blend_channel(27, 48, t), opaque]
    } else {
        [blend_channel(24, 55, -t), blend_channel(24, 30, -t), blend_channel(27, 28, -t), opaque]
    }
}

/// A channel raised by 0.35, but not above 1.
fn brighten_channel(c: Ratio) -> (r: Ratio)
    requires
        c.is_unit(),
        c.den <= COLOR_MAX,
    ensures
        r == brightened(c),
{
    let raised: i128 = 100 * c.num + 35 * c.den;
    if raised < 100 * c.den {
        Ratio { num: raised, den: 100 * c.den }
    } else {
        Ratio { num: 1, den: 1 }
    }
}

/// The colour of the matrix cell that is being dragged: brighter in its first three
/// channels.
pub fn brighten(color: [Ratio; 4]) -> (r: [Ratio; 4])
    requires
        forall|i: int| 0 <= i < 3 ==> (#[trigger] color[i]).is_unit() && color[i].den <= COLOR_MAX,
    ensures
        r == brightened_color(color),
{
    [brighten_channel(color[0]), brighten_channel(color[1]), brighten_channel(color[2]), color[3]]
}

/// For a hue in the circle, and saturation and value between 0 and 1, the largest
/// channel is the value `v`, the smallest is `v * (1 - s)`, and all lie between 0
/// and 1.
pub proof fn law_hsv_range(h: Ratio, s: Ratio, v: Ratio)
    requires
        h.is_unit(),
        s.is_unit(),
        v.is_unit(),
    ensures
        ({
            let (r, g, b) = hsv_channels(h, s, v);
            let top = v.num * s.den * h.den;
            let low = v.num * (s.den - s.num) * h.den;
            &&& hsv_den(h, s, v) > 0
            &&& 0 <= low <= top <= hsv_den(h, s, v)
            &&& low <= r <= top
            &&& low <= g <= top
            &&& low <= b <= top
            &&& r == top || g == top || b == top
            &&& r == low || g == low || b == low
        }),
{
    let (hn, hd) = (h.num as int, h.den as int);
    let (sn, sd) = (s.num as int, s.den as int);
    let (vn, vd) = (v.num as int, v.den as int);
    let rem = signed_rem(6 * hn, 2 * hd);
    lemma_mod_bound(6 * hn, 2 * hd);
    let w = hd - magnitude(rem - hd);
    assert(0 <= w <= hd);
    assert(0 <= vn * sn <= vn * sd <= vd * sd) by (nonlinear_arith)
        requires
            0 <= vn <= vd,
            0 <= sn <= sd,
    ;
    assert(vd * sd > 0) by (nonlinear_arith)
        requires
            vd > 0,
            sd > 0,
    ;
    let p = vn * sn;
    let q = vn * sd;
    let d = vd * sd;
    assert(vn * (sd - sn) == q - p) by (nonlinear_arith)
        requires
            p == vn * sn,
            q == vn * sd,
    ;
    assert(0 <= p * w <= p * hd && 0 <= (q - p) * hd && p * hd + (q - p) * hd == q * hd && q * hd <= d
        * hd && 0 < d * hd) by (nonlinear_arith)
        requires
            0 <= p <= q <= d,
            0 < d,
            0 <= w <= hd,
            0 < hd,
    ;
}

/// The middle component rises and falls in turn through the six sectors of the hue
/// circle, linearly between nothing and the full chroma.
pub proof fn law_hsv_sectors(h: Ratio, s: Ratio, v: Ratio)
    requires
        h.is_unit(),
    ensures
        ({
            let six_h = 6 * h.num;
            let d = h.den as int;
            let ramp = if six_h < d {
                six_h
            } else if six_h < 2 * d {
                2 * d - six_h
            } else if six_h < 3 * d {
                six_h - 2 * d
            } else if six_h < 4 * d {
                4 * d - six_h
            } else if six_h < 5 * d {
                six_h - 4 * d
            } else {
                6 * d - six_h
            };
            &&& 0 <= ramp <= d
            &&& middle(h, s, v) == v.num * s.num * ramp
        }),
{
    let d2 = 2 * h.den;
    let six_h = 6 * h.num;
    let turns: int = if six_h < d2 {
        0
    } else if six_h < 2 * d2 {
        1
    } else if six_h < 3 * d2 {
        2
    } else {
        3
    };
    assert(d2 * turns == turns * d2) by (nonlinear_arith);
    lemma_fundamental_div_mod_converse(six_h, d2, turns, six_h - turns * d2);
}

/// How far a channel falls below the value at hue `h`, over the denominator of the hue:
/// nothing over a third of the circle, all over the opposite third, and a linear ramp
/// over the sixth on either side. The channel has its full value around the sixth
/// `5 - shift` of the circle.
pub open spec fn hue_falloff(h: Ratio, shift: int) -> int {
    let turn = (shift * h.den + 6 * h.num) % (6 * h.den);
    if turn < h.den {
        turn
    } else if turn < 3 * h.den {
        h.den as int
    } else if turn < 4 * h.den {
        4 * h.den - turn
    } else {
        0
    }
}

/// The three channels are the same function of the hue, a third of the circle apart: each
/// falls from the value `v` down to `v * (1 - s)` and back.
pub proof fn law_hsv_channels_are_a_third_apart(h: Ratio, s: Ratio, v: Ratio)
    requires
        h.is_unit(),
    ensures
        ({
            let top = v.num * s.den * h.den;
            let (r, g, b) = hsv_channels(h, s, v);
            &&& r == top - v.num * s.num * hue_falloff(h, 5)
            &&& g == top - v.num * s.num * hue_falloff(h, 3)
            &&& b == top - v.num * s.num * hue_falloff(h, 1)
            &&& hsv_den(h, s, v) == v.den * s.den * h.den
        }),
{
    let d = h.den as int;
    let six_h = 6 * h.num;
    let p = v.num * s.num;
    let q = v.num * s.den;
    law_hsv_sectors(h, s, v);
    assert((q - p) * d == q * d - p * d) by (nonlinear_arith);
    lemma_turn(h, 5);
    lemma_turn(h, 3);
    lemma_turn(h, 1);
    let (fr, fg, fb) = (hue_falloff(h, 5), hue_falloff(h, 3), hue_falloff(h, 1));
    let ramp = if six_h < d {
        six_h
    } else if six_h < 2 * d {
        2 * d - six_h
    } else if six_h < 3 * d {
        six_h - 2 * d
    } else if six_h < 4 * d {
        4 * d - six_h
    } else if six_h < 5 * d {
        six_h - 4 * d
    } else {
        6 * d - six_h
    };
    assert(p * (d - ramp) == p * d - p * ramp) by (nonlinear_arith);
    assert(p * 0 == 0);
    if six_h < d {
        assert(fr == 0 && fg == d - ramp && fb == d);
    } else if six_h < 2 * d {
        assert(fr == d - ramp && fg == 0 && fb == d);
    } else if six_h < 3 * d {
        assert(fr == d && fg == 0 && fb == d - ramp);
    } else if six_h < 4 * d {
        assert(fr == d && fg == d - ramp && fb == 0);
    } else if six_h < 5 * d {
        assert(fr == d - ramp && fg == d && fb == 0);
    } else {
        assert(fr == 0 && fg == d && fb == d - ramp);
    }
}

/// The turn of a hue inside the circle, shifted by up to five sixths.
proof fn lemma_turn(h: Ratio, shift: int)
    requires
        h.is_unit(),
        0 <= shift <= 5,
    ensures
        ({
            let sum = shift * h.den + 6 * h.num;
            let turn = sum % (6 * h.den);
            turn == (if sum < 6 * h.den {
                sum
            } else {
                sum - 6 * h.den
            })
        }),
{
    let d6 = 6 * h.den;
    let sum = shift * h.den + 6 * h.num;
    assert(0 <= shift * h.den <= 5 * h.den) by (nonlinear_arith)
        requires
            0 <= shift <= 5,
            0 < h.den,
    ;
    let turns: int = if sum < d6 {
        0
    } else {
        1
    };
    assert(d6 * turns == turns * d6) by (nonlinear_arith);
    lemma_fundamental_div_mod_converse(sum, d6, turns, sum - turns * d6);
}

/// Outside the circle the nearest sector goes on: before its start red is full and blue
/// lowest, after its end red is full and green lowest. Past the end the third channel
/// repeats every third of a turn; before the start it is below the lowest one, by the
/// remainder of the hue.
pub proof fn law_hsv_outside_the_circle(h: Ratio, s: Ratio, v: Ratio)
    requires
        h.den > 0,
    ensures
        ({
            let (r, g, b) = hsv_channels(h, s, v);
            let top = v.num * s.den * h.den;
            let low = v.num * (s.den - s.num) * h.den;
            &&& hsv_den(h, s, v) == v.den * s.den * h.den
            &&& h.num < 0 ==> r == top && b == low && g == low - v.num * s.num * ((-6 * h.num) % (2
                * h.den))
            &&& h.num >= h.den ==> {
                let rem = (6 * h.num) % (2 * h.den);
                &&& r == top && g == low
                &&& rem <= h.den ==> b == low + v.num * s.num * rem
                &&& rem >= h.den ==> b == low + v.num * s.num * (2 * h.den - rem)
            }
        }),
{
    let (hn, hd) = (h.num as int, h.den as int);
    let p = v.num * s.num;
    let q = v.num * s.den;
    assert(v.num * (s.den - s.num) == q - p) by (nonlinear_arith)
        requires
            p == v.num * s.num,
            q == v.num * s.den,
    ;
    assert(p * hd + (q - p) * hd == q * hd) by (nonlinear_arith);
    if hn < 0 {
        let rem = (-6 * hn) % (2 * hd);
        lemma_mod_bound(-6 * hn, 2 * hd);
        assert(-(6 * hn) == -6 * hn);
        assert(signed_rem(6 * hn, 2 * hd) == -rem);
        assert(middle(h, s, v) == p * (-rem));
        assert(p * (-rem) == -(p * rem)) by (nonlinear_arith);
    }
}

/// Without saturation a colour is gray: all channels equal the value.
pub proof fn law_hsv_gray(h: Ratio, s: Ratio, v: Ratio)
    requires
        s.num == 0,
    ensures
        hsv_channels(h, s, v) == (
            v.num * s.den * h.den,
            v.num * s.den * h.den,
            v.num * s.den * h.den,
        ),
{
    assert(v.num * 0 == 0);
    assert(0 * h.den == 0);
    assert(0 * (h.den - magnitude(signed_rem(6 * h.num, 2 * h.den) - h.den)) == 0)
        by (nonlinear_arith);
}

/// Hues start at 0 and go on by the golden ratio, 0.6180339887 of a turn from each type to
/// the next, round and round the circle.
#[verifier::spinoff_prover]
pub proof fn law_hue_steps(t: int)
    requires
        0 <= t,
    ensures
        type_hue(0).num == 0,
        type_hue(t).den == 10_000_000_000,
        0 <= type_hue(t).num < 10_000_000_000,
        type_hue(t + 1).num - type_hue(t).num == 6_180_339_887 || type_hue(t + 1).num - type_hue(t).num
            == 6_180_339_887 - 10_000_000_000,
{
    let (a, step, turn) = (t * HUE_STEP, HUE_STEP as int, HUE_DEN as int);
    let (q, m) = (a / turn, a % turn);
    lemma_mod_bound(a, turn);
    lemma_fundamental_div_mod(a, turn);
    assert((t + 1) * HUE_STEP == a + step) by (nonlinear_arith)
        requires
            a == t * HUE_STEP,
            step == HUE_STEP,
    ;
    assert(turn * (q + 1) == turn * q + turn) by (nonlinear_arith);
    if m + step < turn {
        lemma_fundamental_div_mod_converse(a + step, turn, q, m + step);
    } else {
        lemma_fundamental_div_mod_converse(a + step, turn, q + 1, m + step - turn);
    }
    assert(0 * HUE_STEP == 0);
    lemma_fundamental_div_mod_converse(0, turn, 0, 0);
}

/// A type's colour is the colour of its hue at saturation 0.85 and full value, and 45% of
/// the way from there to the gray 0.55.
pub proof fn law_type_color_is_muted(t: int)
    requires
        0 <= t,
    ensures
        ({
            let h = type_hue(t);
            let s = Ratio { num: 85, den: 100 };
            let v = Ratio { num: 1, den: 1 };
            let d = hsv_den(h, s, v);
            let (r, g, b) = hsv_channels(h, s, v);
            let c = type_color(t);
            &&& c[0].equals(5500 * r + 2475 * d, 10000 * d)
            &&& c[1].equals(5500 * g + 2475 * d, 10000 * d)
            &&& c[2].equals(5500 * b + 2475 * d, 10000 * d)
            &&& c[3].equals(1, 1)
            &&& c[0].den > 0 && c[1].den > 0 && c[2].den > 0 && c[3].den > 0
        }),
{
    let h = type_hue(t);
    let s = Ratio { num: 85, den: 100 };
    let v = Ratio { num: 1, den: 1 };
    lemma_mod_bound(t * HUE_STEP, HUE_DEN as int);
    law_hsv_range(h, s, v);
    let d = hsv_den(h, s, v);
    let (r, g, b) = hsv_channels(h, s, v);
    lemma_muted(r, d);
    lemma_muted(g, d);
    lemma_muted(b, d);
}

proof fn lemma_muted(c: int, d: int)
    requires
        0 <= c <= d,
        0 < d <= COLOR_MAX,
    ensures
        ({
            let m = muted(Ratio { num: c as i128, den: d as i128 });
            m.equals(5500 * c + 2475 * d, 10000 * d) && m.den > 0
        }),
{
    let m = muted(Ratio { num: c as i128, den: d as i128 });
    assert(m.num == 5500 * c + 2475 * d);
    assert(m.den == 10000 * d);
}

/// Every type's colour is opaque, and its channels lie between 0 and 1.
pub proof fn law_type_color_range(t: int)
    requires
        0 <= t,
    ensures
        forall|i: int| 0 <= i < 4 ==> (#[trigger] type_color(t)[i]).is_unit(),
        type_color(t)[3] == (Ratio { num: 1, den: 1 }),
{
    let h = type_hue(t);
    lemma_mod_bound(t * HUE_STEP, HUE_DEN as int);
    law_hsv_range(h, Ratio::hundredths(85), Ratio { num: 1, den: 1 });
}

/// The matrix scale is neutral gray at 0, rust at -1 and below, teal at 1 and above.
#[verifier::spinoff_prover]
pub proof fn law_matrix_color_ends(v: int)
    ensures
        v == 0 ==> value_color(v)[0].equals(24, 100) && value_color(v)[1].equals(24, 100)
            && value_color(v)[2].equals(27, 100),
        v >= WEIGHT_ONE ==> value_color(v)[0].equals(25, 100) && value_color(v)[1].equals(55, 100)
            && value_color(v)[2].equals(48, 100),
        v <= -WEIGHT_ONE ==> value_color(v)[0].equals(55, 100) && value_color(v)[1].equals(30, 100)
            && value_color(v)[2].equals(28, 100),
{
}

proof fn lemma_blend(from: int, to: int, a: int)
    requires
        0 <= from <= to <= 100,
        0 <= a <= WEIGHT_ONE,
    ensures
        blend(from, to, a).num == from * WEIGHT_ONE + (to - from) * a,
{
    lemma_mul_bound(from, WEIGHT_ONE as int, 100, WEIGHT_ONE as int);
    lemma_mul_bound(to - from, a, 100, WEIGHT_ONE as int);
}

/// The matrix scale is linear from the neutral gray to either end: the difference of a
/// channel from the gray is the same share of the whole way as the weight is of 1.
#[verifier::spinoff_prover]
pub proof fn law_matrix_color_is_linear(v: int)
    ensures
        ({
            let c = value_color(v);
            let one = WEIGHT_ONE as int;
            &&& 0 <= v <= one ==> c[0].equals(24 * one + v, 100 * one) && c[1].equals(
                24 * one + 31 * v,
                100 * one,
            ) && c[2].equals(27 * one + 21 * v, 100 * one)
            &&& -one <= v <= 0 ==> c[0].equals(24 * one - 31 * v, 100 * one) && c[1].equals(
                24 * one - 6 * v,
                100 * one,
            ) && c[2].equals(27 * one - v, 100 * one)
            &&& v > one ==> c == value_color(one)
            &&& v < -one ==> c == value_color(-one)
            &&& c[0].den > 0 && c[1].den > 0 && c[2].den > 0 && c[3].den > 0
        }),
{
    let c = value_color(v);
    let one = WEIGHT_ONE as int;
    assert(c[0].den == 100 * one && c[1].den == 100 * one && c[2].den == 100 * one);
    if 0 <= v <= one {
        lemma_blend(24, 25, v);
        lemma_blend(24, 55, v);
        lemma_blend(27, 48, v);
        assert(c[0].num == 24 * one + v && c[1].num == 24 * one + 31 * v && c[2].num == 27 * one + 21
            * v);
    }
    if -one <= v < 0 {
        let a = -v;
        assert(c == [blend(24, 55, a), blend(24, 30, a), blend(27, 28, a), Ratio { num: 1, den: 1 }]);
        lemma_blend(24, 55, a);
        lemma_blend(24, 30, a);
        lemma_blend(27, 28, a);
        assert(c[0].num == 24 * one + 31 * a);
        assert(c[1].num == 24 * one + 6 * a);
        assert(c[2].num == 27 * one + a);
    }
    if v > one {
        assert(clamped(v, -one, one) == clamped(one, -one, one));
        assert(c == value_color(one));
    }
    if v < -one {
        assert(clamped(v, -one, one) == clamped(-one, -one, one));
        assert(c == value_color(-one));
    }
}

/// Every matrix colour is opaque, and its channels lie between 0 and 1.
pub proof fn law_matrix_color_range(v: int)
    ensures
        forall|i: int|
            0 <= i < 4 ==> (#[trigger] value_color(v)[i]).is_unit() && value_color(v)[i].den <= COLOR_MAX,
        value_color(v)[3] == (Ratio { num: 1, den: 1 }),
{
}

/// The scale diverges: among entries that attract, a stronger one has more of the
/// green channel than a weaker one; among entries that repel, more of the red one.
#[verifier::spinoff_prover]
pub proof fn law_matrix_color_diverges(u: int, v: int)
    ensures
        0 <= u < v <= WEIGHT_ONE ==> value_color(u)[1].num < value_color(v)[1].num,
        -WEIGHT_ONE <= v < u <= 0 ==> value_color(u)[0].num < value_color(v)[0].num,
        value_color(u)[0].den == value_color(v)[0].den,
        value_color(u)[1].den == value_color(v)[1].den,
{
}

/// Brightening adds 0.35 to a channel, or what is left up to 1, and leaves the opacity
/// alone.
pub proof fn law_brighten_adds_a_fixed_amount(c: [Ratio; 4], i: int)
    requires
        0 <= i < 3,
        c[i].is_unit(),
        c[i].den <= COLOR_MAX,
    ensures
        ({
            let b = brightened_color(c);
            &&& 100 * c[i].num <= 65 * c[i].den ==> b[i].equals(
                100 * c[i].num + 35 * c[i].den,
                100 * c[i].den,
            )
            &&& 100 * c[i].num >= 65 * c[i].den ==> b[i].equals(1, 1)
            &&& b[i].den > 0
            &&& b[3] == c[3]
        }),
{
    let x = c[i];
    let b = brightened_color(c);
    assert(b[i] == brightened(x));
    if 100 * x.num < 65 * x.den {
        assert(b[i].num == 100 * x.num + 35 * x.den);
        assert(b[i].den == 100 * x.den);
        assert(b[i].equals(100 * x.num + 35 * x.den, 100 * x.den));
    } else if 100 * x.num == 65 * x.den {
        let p = 100 * x.num + 35 * x.den;
        let q = 100 * x.den;
        assert(b[i].num * q == p * b[i].den) by (nonlinear_arith)
            requires
                b[i].num == 1,
                b[i].den == 1,
                p == q,
        ;
    } else {
        assert(b[i].equals(1, 1));
    }
    assert(b[3] == c[3]);
}

/// Brightening never darkens a channel and never leaves the range from 0 to 1.
pub proof fn law_brighten_range(c: Ratio)
    requires
        c.is_unit(),
        c.den <= COLOR_MAX,
    ensures
        brightened(c).is_unit(),
        c.num * brightened(c).den <= brightened(c).num * c.den,
{
    let b = brightened(c);
    if 100 * c.num + 35 * c.den < 100 * c.den {
        assert(c.num * b.den <= b.num * c.den) by (nonlinear_arith)
            requires
                b.den == 100 * c.den,
                b.num == 100 * c.num + 35 * c.den,
                c.den > 0,
        ;
    }
}

} // verus!
