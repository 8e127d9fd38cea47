//! The camera: zoom and pan over a world that wraps around at its edges.
//!
//! Times are in nanoseconds.

use crate::units::{clamp, clamped, coord_ok, floor_div, floor_mod, PX, ZOOM_ONE};
use vstd::arithmetic::div_mod::{
    lemma_div_is_ordered_by_denominator, lemma_fundamental_div_mod, lemma_mod_bound,
};
use vstd::prelude::*;

verus! {

/// The smallest zoom, 0.28: the whole world fits into the initial window.
pub const ZOOM_MIN: i64 = 469_762_048;

/// The largest zoom, 8: close enough to see individual particles.
pub const ZOOM_MAX: i64 = 13_421_772_800;

/// Pan speed: 900 pixels per second at zoom 1, as `9 * PX * ZOOM_ONE` per 10 million
/// nanoseconds.
pub const PAN_GAIN: i128 = 253_327_479_039_590_400;

/// The camera keys that are held down.
#[derive(Clone, Copy, PartialEq, Eq, Structural, Debug)]
pub struct CameraKeys {
    pub zoom_in: bool,
    pub zoom_out: bool,
    pub left: bool,
    pub right: bool,
    pub up: bool,
    pub down: bool,
}

/// `zoom * (1 + 1.6 dt)`, kept between [`ZOOM_MIN`] and [`ZOOM_MAX`].
pub open spec fn zoomed_in(zoom: int, dt: int) -> int {
    clamped(zoom * (5_000_000_000 + 8 * dt) / 5_000_000_000, ZOOM_MIN as int, ZOOM_MAX as int)
}

/// `zoom / (1 + 1.6 dt)`, kept between [`ZOOM_MIN`] and [`ZOOM_MAX`].
pub open spec fn zoomed_out(zoom: int, dt: int) -> int {
    clamped(zoom * 5_000_000_000 / (5_000_000_000 + 8 * dt), ZOOM_MIN as int, ZOOM_MAX as int)
}

/// The zoom after a frame of `dt` with the given keys held; zooming in comes first.
pub open spec fn zoom_after(zoom: int, keys: CameraKeys, dt: int) -> int {
    let z = if keys.zoom_in {
        zoomed_in(zoom, dt)
    } else {
        zoom
    };
    if keys.zoom_out {
        zoomed_out(z, dt)
    } else {
        z
    }
}

/// How far a held arrow key moves the camera in `dt`: 900 pixels per second on the
/// screen, hence `900 dt / zoom` in the world.
pub open spec fn pan_length(zoom: int, dt: int) -> int {
    (PAN_GAIN * dt) / (10_000_000 * zoom)
}

/// The step of one axis, with a key held for each direction.
pub open spec fn axis_step(forward: bool, backward: bool, length: int) -> int {
    (if forward {
        length
    } else {
        0
    }) - (if backward {
        length
    } else {
        0
    })
}

/// `v`, shifted by whole worlds into the range from `-half` up to, but not including,
/// `half`.
pub open spec fn wrapped(v: int, half: int) -> int {
    (v + half) % (2 * half) - half
}

/// The camera coordinates after moving by `step`.
pub open spec fn panned(at: (int, int), step: (int, int), half: (int, int)) -> (int, int) {
    if step.0 != 0 || step.1 != 0 {
        (wrapped(at.0 + step.0, half.0), wrapped(at.1 + step.1, half.1))
    } else {
        at
    }
}

proof fn lemma_mul_nonneg_bound(a: int, b: int, p: int, q: int)
    by (nonlinear_arith)
    requires
        0 <= a <= p,
        0 <= b <= q,
    ensures
        0 <= a * b <= p * q,
{
}

/// `zoom * (1 + 1.6 dt)`, kept between [`ZOOM_MIN`] and [`ZOOM_MAX`].
pub fn zoom_in(zoom: i64, dt: u64) -> (r: i64)
    requires
        ZOOM_MIN <= zoom <= ZOOM_MAX,
    ensures
        r == zoomed_in(zoom as int, dt as int),
        ZOOM_MIN <= r <= ZOOM_MAX,
{
    let factor: i128 = 5_000_000_000 + 8 * (dt as i128);
    proof {
        lemma_mul_nonneg_bound(
            zoom as int,
            factor as int,
            13_421_772_800,
            150_000_000_000_000_000_000,
        );
    }
    clamp(
        floor_div(zoom as i128 * factor, 5_000_000_000),
        ZOOM_MIN as i128,
        ZOOM_MAX as i128,
    ) as i64
}

/// `zoom / (1 + 1.6 dt)`, kept between [`ZOOM_MIN`] and [`ZOOM_MAX`].
pub fn zoom_out(zoom: i64, dt: u64) -> (r: i64)
    requires
        ZOOM_MIN <= zoom <= ZOOM_MAX,
    ensures
        r == zoomed_out(zoom as int, dt as int),
        ZOOM_MIN <= r <= ZOOM_MAX,
{
    let factor: i128 = 5_000_000_000 + 8 * (dt as i128);
    clamp(
        floor_div(zoom as i128 * 5_000_000_000, factor),
        ZOOM_MIN as i128,
        ZOOM_MAX as i128,
    ) as i64
}

/// The zoom after a frame with the given keys held.
pub fn zoom_by_keys(zoom: i64, keys: &CameraKeys, dt: u64) -> (r: i64)
    requires
        ZOOM_MIN <= zoom <= ZOOM_MAX,
    ensures
        r == zoom_after(zoom as int, *keys, dt as int),
        ZOOM_MIN <= r <= ZOOM_MAX,
{
    let mut r: i64 = zoom;
    if keys.zoom_in {
        r = zoom_in(r, dt);
    }
    if keys.zoom_out {
        r = zoom_out(r, dt);
    }
    r
}

/// The length of a pan step.
pub fn pan_step(zoom: i64, dt: u64) -> (r: i128)
    requires
        ZOOM_MIN <= zoom <= ZOOM_MAX,
    ensures
        r == pan_length(zoom as int, dt as int),
        r * (10_000_000 * zoom) <= PAN_GAIN * dt < (r + 1) * (10_000_000 * zoom),
        0 <= r <= 0x400_0000_0000_0000_0000_0000_0000_0000,
{
    let num: i128 = PAN_GAIN * (dt as i128);
    let den: i128 = 10_000_000 * (zoom as i128);
    let r: i128 = floor_div(num, den);
    proof {
        lemma_fundamental_div_mod(num as int, den as int);
        let m: int = num as int % den as int;
        lemma_mod_bound(num as int, den as int);
        assert(0 <= r <= num) by (nonlinear_arith)
            requires
                num == den * r + m,
                0 <= m < den,
                0 <= num,
                den >= 1,
        ;
        law_pan_speed_on_screen(zoom as int, dt as int);
    }
    r
}

/// The step of one axis, with a key held for each direction.
pub fn pan_along(forward: bool, backward: bool, length: i128) -> (r: i128)
    requires
        0 <= length,
    ensures
        r == axis_step(forward, backward, length as int),
        -length <= r <= length,
{
    let mut r: i128 = 0;
    if backward {
        r = r - length;
    }
    if forward {
        r = r + length;
    }
    r
}

/// `v`, shifted by whole worlds into the world.
pub fn wrap(v: i128, half: i64) -> (r: i64)
    requires
        0 < half,
        coord_ok(half as int),
        -0x800_0000_0000_0000_0000_0000_0000_0000 <= v <= 0x800_0000_0000_0000_0000_0000_0000_0000,
    ensures
        r == wrapped(v as int, half as int),
        -half <= r < half,
{
    let full: i128 = 2 * (half as i128);
    let m: i128 = floor_mod(v + half as i128, full);
    proof {
        lemma_mod_bound(v + half, full as int);
    }
    (m - half as i128) as i64
}

/// Zooming stays within its limits.
pub proof fn law_zoom_is_bounded(zoom: int, keys: CameraKeys, dt: int)
    requires
        ZOOM_MIN <= zoom <= ZOOM_MAX,
    ensures
        ZOOM_MIN <= zoom_after(zoom, keys, dt) <= ZOOM_MAX,
{
}

/// Zooming in never makes the view smaller, and zooming out never makes it larger.
pub proof fn law_zoom_direction(zoom: int, dt: int)
    requires
        ZOOM_MIN <= zoom <= ZOOM_MAX,
        0 <= dt,
    ensures
        zoomed_in(zoom, dt) >= zoom,
        zoomed_out(zoom, dt) <= zoom,
{
    let f: int = 5_000_000_000 + 8 * dt;
    assert(zoom * f >= zoom * 5_000_000_000) by (nonlinear_arith)
        requires
            f >= 5_000_000_000,
            zoom >= 0,
    ;
    vstd::arithmetic::div_mod::lemma_div_is_ordered(zoom * 5_000_000_000, zoom * f, 5_000_000_000);
    assert((zoom * 5_000_000_000) / 5_000_000_000 == zoom);
    lemma_div_is_ordered_by_denominator(zoom * 5_000_000_000, 5_000_000_000, f);
}

/// Zooming in multiplies the zoom by a factor that depends on the time alone,
/// `1 + 1.6 dt`, rounded down to a unit, until it reaches the largest zoom.
pub proof fn law_zoom_in_is_by_factor(zoom: int, dt: int)
    requires
        ZOOM_MIN <= zoom <= ZOOM_MAX,
        0 <= dt,
    ensures
        ({
            let r = zoomed_in(zoom, dt);
            let grown = zoom * (5_000_000_000 + 8 * dt);
            &&& ZOOM_MIN <= r <= ZOOM_MAX
            &&& r < ZOOM_MAX ==> r * 5_000_000_000 <= grown < (r + 1) * 5_000_000_000
            &&& r == ZOOM_MAX ==> grown >= ZOOM_MAX * 5_000_000_000
        }),
{
    let grown = zoom * (5_000_000_000 + 8 * dt);
    assert(grown >= zoom * 5_000_000_000) by (nonlinear_arith)
        requires
            grown == zoom * (5_000_000_000 + 8 * dt),
            zoom >= 0,
            dt >= 0,
    ;
    lemma_fundamental_div_mod(grown, 5_000_000_000);
    lemma_mod_bound(grown, 5_000_000_000);
}

/// Zooming out divides the zoom by a factor that depends on the time alone,
/// `1 + 1.6 dt`, rounded down to a unit, until it reaches the smallest zoom.
pub proof fn law_zoom_out_is_by_factor(zoom: int, dt: int)
    requires
        ZOOM_MIN <= zoom <= ZOOM_MAX,
        0 <= dt,
    ensures
        ({
            let r = zoomed_out(zoom, dt);
            let factor = 5_000_000_000 + 8 * dt;
            &&& ZOOM_MIN <= r <= ZOOM_MAX
            &&& r > ZOOM_MIN ==> r * factor <= zoom * 5_000_000_000
            &&& zoom * 5_000_000_000 < (r + 1) * factor
        }),
{
    let factor = 5_000_000_000 + 8 * dt;
    let whole = zoom * 5_000_000_000;
    let q = whole / factor;
    lemma_fundamental_div_mod(whole, factor);
    lemma_mod_bound(whole, factor);
    let m = whole % factor;
    assert(factor * q == q * factor) by (nonlinear_arith);
    assert((q + 1) * factor == q * factor + factor) by (nonlinear_arith);
    law_zoom_direction(zoom, dt);
    assert(q <= zoom) by (nonlinear_arith)
        requires
            zoom * 5_000_000_000 == q * factor + m,
            0 <= m,
            factor >= 5_000_000_000,
            zoom >= 0,
    ;
    let r = zoomed_out(zoom, dt);
    assert((q + 1) * factor <= (r + 1) * factor) by (nonlinear_arith)
        requires
            q <= r,
            factor > 0,
    ;
}

/// Each zoom key acts whenever it is held and only then; with both held, the zoom first
/// grows and then shrinks.
pub proof fn law_zoom_keys(zoom: int, keys: CameraKeys, dt: int)
    ensures
        !keys.zoom_in && !keys.zoom_out ==> zoom_after(zoom, keys, dt) == zoom,
        keys.zoom_in && !keys.zoom_out ==> zoom_after(zoom, keys, dt) == zoomed_in(zoom, dt),
        !keys.zoom_in && keys.zoom_out ==> zoom_after(zoom, keys, dt) == zoomed_out(zoom, dt),
        keys.zoom_in && keys.zoom_out ==> zoom_after(zoom, keys, dt) == zoomed_out(
            zoomed_in(zoom, dt),
            dt,
        ),
{
}

/// The limits of the zoom are 0.28 and 8.
pub proof fn law_zoom_limits()
    ensures
        0 <= 28 * ZOOM_ONE - 100 * ZOOM_MIN < 100,
        ZOOM_MAX == 8 * ZOOM_ONE,
{
}

/// On each axis the forward key adds the length of the step, the backward key takes it
/// away, and held together they cancel.
pub proof fn law_axis_keys(length: int)
    ensures
        axis_step(true, false, length) == length,
        axis_step(false, true, length) == -length,
        axis_step(true, true, length) == 0,
        axis_step(false, false, length) == 0,
{
}

/// The two axes move independently: each coordinate ends up in the world, whole worlds
/// away from where its own step alone takes it, whatever the other step is.
pub proof fn law_axes_are_independent(at: (int, int), step: (int, int), half: (int, int))
    requires
        0 < half.0,
        0 < half.1,
        -half.0 <= at.0 < half.0,
        -half.1 <= at.1 < half.1,
    ensures
        ({
            let to = panned(at, step, half);
            &&& -half.0 <= to.0 < half.0
            &&& -half.1 <= to.1 < half.1
            &&& (to.0 - (at.0 + step.0)) % (2 * half.0) == 0
            &&& (to.1 - (at.1 + step.1)) % (2 * half.1) == 0
        }),
{
    law_wrap(at.0 + step.0, half.0);
    law_wrap(at.1 + step.1, half.1);
    if step.0 == 0 && step.1 == 0 {
        vstd::arithmetic::div_mod::lemma_small_mod(0, (2 * half.0) as nat);
        vstd::arithmetic::div_mod::lemma_small_mod(0, (2 * half.1) as nat);
    }
}

/// Panning looks equally fast at any zoom: the step on the screen, world step times
/// zoom, is 900 pixels per second, short of it by less than one length unit of the
/// world.
pub proof fn law_pan_speed_on_screen(zoom: int, dt: int)
    requires
        0 < zoom,
        0 <= dt,
    ensures
        PAN_GAIN == 9 * PX * ZOOM_ONE,
        pan_length(zoom, dt) * (10_000_000 * zoom) <= PAN_GAIN * dt,
        PAN_GAIN * dt < (pan_length(zoom, dt) + 1) * (10_000_000 * zoom),
{
    let num = PAN_GAIN * dt;
    let den = 10_000_000 * zoom;
    lemma_fundamental_div_mod(num, den);
    lemma_mod_bound(num, den);
    let q = num / den;
    assert(den * q == q * den) by (nonlinear_arith);
    assert((q + 1) * den == q * den + den) by (nonlinear_arith);
}

/// Any held arrow key that is not held against its opposite moves the camera, however
/// short the frame.
pub proof fn law_pan_is_never_lost(zoom: int, dt: int)
    requires
        ZOOM_MIN <= zoom <= ZOOM_MAX,
        0 < dt,
    ensures
        pan_length(zoom, dt) > 0,
{
    let num = PAN_GAIN * dt;
    let den = 10_000_000 * zoom;
    lemma_fundamental_div_mod(num, den);
    lemma_mod_bound(num, den);
    assert(num >= den);
    assert(num / den > 0) by (nonlinear_arith)
        requires
            num == den * (num / den) + num % den,
            num % den < den,
            num >= den,
            den > 0,
    ;
}

/// Wrapping leaves a coordinate of the world alone, brings every coordinate into the
/// world, and only ever shifts it by whole worlds.
pub proof fn law_wrap(v: int, half: int)
    requires
        0 < half,
    ensures
        -half <= wrapped(v, half) < half,
        -half <= v < half ==> wrapped(v, half) == v,
        (wrapped(v, half) - v) % (2 * half) == 0,
        wrapped(v + 2 * half, half) == wrapped(v, half),
{
    let full = 2 * half;
    lemma_mod_bound(v + half, full);
    lemma_fundamental_div_mod(v + half, full);
    let q = (v + half) / full;
    if -half <= v < half {
        vstd::arithmetic::div_mod::lemma_small_mod((v + half) as nat, full as nat);
    }
    assert(wrapped(v, half) - v == full * (-q)) by (nonlinear_arith)
        requires
            v + half == full * q + (v + half) % full,
            wrapped(v, half) == (v + half) % full - half,
    ;
    vstd::arithmetic::div_mod::lemma_mod_multiples_basic(-q, full);
    assert(full * (-q) == (-q) * full) by (nonlinear_arith);
    vstd::arithmetic::div_mod::lemma_mod_add_multiples_vanish(v + half, full);
    assert(v + full + half == full + (v + half));
}

/// Panning there and back again ends where it began.
pub proof fn law_pan_there_and_back(v: int, step: int, half: int)
    requires
        0 < half,
        -half <= v < half,
    ensures
        wrapped(wrapped(v + step, half) - step, half) == v,
{
    let full = 2 * half;
    let u = v + step + half;
    lemma_fundamental_div_mod(u, full);
    let q = u / full;
    assert(wrapped(v + step, half) - step + half == (v + half) + full * (-q)) by (nonlinear_arith)
        requires
            u == full * q + u % full,
            u == v + step + half,
            wrapped(v + step, half) == u % full - half,
    ;
    vstd::arithmetic::div_mod::lemma_mod_multiples_vanish(-q, v + half, full);
    vstd::arithmetic::div_mod::lemma_small_mod((v + half) as nat, full as nat);
    assert(full * (-q) + (v + half) == (v + half) + full * (-q));
}

} // verus!
