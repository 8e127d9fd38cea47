//! The geometry of the whole control panel: background, speed slider, header swatches
//! and the cells of the interaction matrix.

use crate::color::{
    brighten, brightened_color, law_matrix_color_range, matrix_value_color, type_color, type_color_rgb,
    value_color,
};
use crate::ui::{
    cell_rect, down_chevron_vertices, grid_cell_rect, push_down_chevron, push_rect, push_right_chevron,
    rect, rect_vertices, right_chevron_vertices, UiLayout, UiRect, UiVertex, UI_MAX_VERTICES,
};
use crate::units::{clamp, clamped, floor_div, lemma_entry_position, Ratio, PX};
use vstd::arithmetic::div_mod::{lemma_fundamental_div_mod, lemma_mod_bound};
use vstd::prelude::*;

verus! {

/// The largest denominator of a slider position.
pub const SPEED_DEN_MAX: i128 = 0x1000_0000_0000_0000;

/// A binary logarithm of a speed multiplier within the slider's range: from -5 (a
/// thirty-second) to 1 (twice).
pub open spec fn speed_ok(e: Ratio) -> bool {
    0 < e.den <= SPEED_DEN_MAX && -5 * e.den <= e.num <= e.den
}

/// A binary logarithm of a speed multiplier, within the slider's range or not, that
/// exact arithmetic has room for.
pub open spec fn speed_drawable(e: Ratio) -> bool {
    0 < e.den <= SPEED_DEN_MAX && -8 * SPEED_DEN_MAX <= e.num <= 8 * SPEED_DEN_MAX
}

/// The speed, as a binary logarithm, that the mouse at `x` selects on the slider. The
/// slider is logarithmic: its left end is -5, its right end 1.
pub open spec fn slider_speed(l: UiLayout, x: int) -> Ratio {
    let w = l.slider_x1 - l.slider_x0;
    let c = clamped(x - l.slider_x0, 0, w);
    Ratio { num: (6 * c - 5 * w) as i128, den: w as i128 }
}

/// The speed, as a binary logarithm, that the mouse at `x` selects on the slider.
pub fn speed_at(layout: &UiLayout, x: i64) -> (e: Ratio)
    requires
        layout.wf(),
    ensures
        e == slider_speed(*layout, x as int),
        speed_ok(e),
{
    let w: i128 = layout.slider_x1 as i128 - layout.slider_x0 as i128;
    let c: i128 = clamp(x as i128 - layout.slider_x0 as i128, 0, w);
    Ratio { num: 6 * c - 5 * w, den: w }
}

/// The x coordinate of the slider's handle at a speed: the fraction `(e + 5) / 6` of
/// the way from the left end to the right end, or the nearer end.
pub open spec fn handle_x(l: UiLayout, e: Ratio) -> int {
    let t = clamped(e.num + 5 * e.den, 0, 6 * e.den);
    l.slider_x0 + ((l.slider_x1 - l.slider_x0) * t) / (6 * e.den)
}

/// The slider's handle at a speed: 12 by 18 pixels, centred on the track.
pub open spec fn handle_rect(l: UiLayout, e: Ratio) -> UiRect {
    let x = handle_x(l, e);
    rect(x - 6 * PX, l.slider_y_center - 9 * PX, x + 6 * PX, l.slider_y_center + 9 * PX)
}

/// The x coordinate of the handle lies on the slider.
proof fn lemma_handle_bounds(l: UiLayout, e: Ratio)
    requires
        l.wf(),
        speed_drawable(e),
    ensures
        l.slider_x0 <= handle_x(l, e) <= l.slider_x1,
{
    let w = l.slider_x1 - l.slider_x0;
    let d = 6 * e.den;
    let t = clamped(e.num + 5 * e.den, 0, d);
    lemma_fundamental_div_mod(w * t, d);
    lemma_mod_bound(w * t, d);
    let q = (w * t) / d;
    let m = (w * t) % d;
    assert(0 <= q <= w) by (nonlinear_arith)
        requires
            w * t == d * q + m,
            0 <= m < d,
            0 <= t <= d,
            0 < w,
            0 < d,
    ;
}

/// The slider's handle at a speed.
pub fn slider_handle(layout: &UiLayout, speed_log2: Ratio) -> (r: UiRect)
    requires
        layout.wf(),
        speed_drawable(speed_log2),
    ensures
        r == handle_rect(*layout, speed_log2),
{
    let w: i128 = layout.slider_x1 as i128 - layout.slider_x0 as i128;
    let d: i128 = 6 * speed_log2.den;
    let t: i128 = clamp(speed_log2.num + 5 * speed_log2.den, 0, d);
    proof {
        assert(0 <= w * t <= 0x200_0000_0000_0000 * 0x6000_0000_0000_0000) by (nonlinear_arith)
            requires
                0 <= w <= 0x200_0000_0000_0000,
                0 <= t <= 0x6000_0000_0000_0000,
        ;
        lemma_handle_bounds(*layout, speed_log2);
    }
    let x: i64 = (layout.slider_x0 as i128 + floor_div(w * t, d)) as i64;
    let handle_half: i64 = 6 * PX;
    UiRect {
        x0: x - handle_half,
        x1: x + handle_half,
        y0: layout.slider_y_center - handle_half - 3 * PX,
        y1: layout.slider_y_center + handle_half + 3 * PX,
    }
}

/// A gray of the given lightness and opacity, in hundredths.
pub open spec fn shade(c: i128, a: i128) -> [Ratio; 4] {
    [Ratio::hundredths(c), Ratio::hundredths(c), Ratio::hundredths(c), Ratio::hundredths(a)]
}

/// A gray of the given lightness and opacity, in hundredths.
fn make_shade(c: i128, a: i128) -> (r: [Ratio; 4])
    ensures
        r == shade(c, a),
{
    [Ratio::hundredths(c), Ratio::hundredths(c), Ratio::hundredths(c), Ratio::hundredths(a)]
}

/// The headers of type `i`: the swatch on top of its column, with a chevron that points
/// down, and the swatch in front of its row, with a chevron that points right.
pub open spec fn header_vertices(l: UiLayout, i: int, half_w: i64, half_h: i64) -> Seq<UiVertex> {
    let on_top = cell_rect(l.grid_origin, 0, i + 1);
    let in_front = cell_rect(l.grid_origin, i + 1, 0);
    rect_vertices(on_top, type_color(i), half_w, half_h) + down_chevron_vertices(
        on_top,
        shade(5, 85),
        half_w,
        half_h,
    ) + rect_vertices(in_front, type_color(i), half_w, half_h) + right_chevron_vertices(
        in_front,
        shade(5, 85),
        half_w,
        half_h,
    )
}

/// The headers of the first `k` types.
pub open spec fn all_headers(l: UiLayout, k: int, half_w: i64, half_h: i64) -> Seq<UiVertex>
    decreases k,
{
    if k <= 0 {
        Seq::empty()
    } else {
        all_headers(l, k - 1, half_w, half_h) + header_vertices(l, k - 1, half_w, half_h)
    }
}

/// The colour of matrix entry `k`; the entry that is being dragged is brighter.
pub open spec fn entry_color(matrix: Seq<i64>, dragged: Option<usize>, k: int) -> [Ratio; 4] {
    let c = value_color(matrix[k] as int);
    if dragged is Some && dragged->0 == k {
        brightened_color(c)
    } else {
        c
    }
}

/// The rectangle of matrix entry `k` of an `n` by `n` matrix: the entry's row and
/// column, after the headers.
pub open spec fn entry_rect(l: UiLayout, n: int, k: int) -> UiRect {
    cell_rect(l.grid_origin, k / n + 1, k % n + 1)
}

/// The first `k` cells of the matrix, row by row.
pub open spec fn all_entries(
    l: UiLayout,
    matrix: Seq<i64>,
    dragged: Option<usize>,
    n: int,
    k: int,
    half_w: i64,
    half_h: i64,
) -> Seq<UiVertex>
    decreases k,
{
    if k <= 0 {
        Seq::empty()
    } else {
        all_entries(l, matrix, dragged, n, k - 1, half_w, half_h) + rect_vertices(
            entry_rect(l, n, k - 1),
            entry_color(matrix, dragged, k - 1),
            half_w,
            half_h,
        )
    }
}

/// The background, the slider's track and its handle.
pub open spec fn frame_vertices(l: UiLayout, speed_log2: Ratio, half_w: i64, half_h: i64) -> Seq<UiVertex> {
    rect_vertices(l.panel_bg, shade(0, 55), half_w, half_h) + rect_vertices(
        l.slider_track,
        shade(100, 25),
        half_w,
        half_h,
    ) + rect_vertices(handle_rect(l, speed_log2), shade(100, 90), half_w, half_h)
}

/// The vertices of the panel.
pub open spec fn panel_vertices(
    l: UiLayout,
    matrix: Seq<i64>,
    dragged: Option<usize>,
    speed_log2: Ratio,
    n: int,
    half_w: i64,
    half_h: i64,
) -> Seq<UiVertex> {
    frame_vertices(l, speed_log2, half_w, half_h) + all_headers(l, n, half_w, half_h) + all_entries(
        l,
        matrix,
        dragged,
        n,
        n * n,
        half_w,
        half_h,
    )
}

/// The number of vertices of the panel for `n` types.
pub open spec fn panel_size(n: int) -> int {
    18 + 18 * n + 6 * (n * n)
}

/// Appends the headers of type `i`.
fn push_headers(verts: &mut Vec<UiVertex>, layout: &UiLayout, i: u32, half_w: i64, half_h: i64)
    requires
        layout.wf(),
        i < u32::MAX,
    ensures
        final(verts)@ == old(verts)@ + header_vertices(*layout, i as int, half_w, half_h),
{
    let chevron = make_shade(5, 85);
    let color = type_color_rgb(i);
    let rect_col = grid_cell_rect(layout.grid_origin, 0, i + 1);
    push_rect(verts, &rect_col, color, half_w, half_h);
    push_down_chevron(verts, &rect_col, chevron, half_w, half_h);

    let rect_row = grid_cell_rect(layout.grid_origin, i + 1, 0);
    push_rect(verts, &rect_row, color, half_w, half_h);
    push_right_chevron(verts, &rect_row, chevron, half_w, half_h);
}

/// The geometry of the panel: rebuilt every frame, so that it stays live at all times.
pub fn build_ui(
    matrix: &Vec<i64>,
    dragged: Option<usize>,
    speed_log2: Ratio,
    layout: &UiLayout,
    half_w: i64,
    half_h: i64,
    num_types: u32,
) -> (verts: Vec<UiVertex>)
    requires
        layout.wf(),
        speed_drawable(speed_log2),
        num_types * num_types <= u32::MAX,
        matrix.len() >= num_types * num_types,
    ensures
        verts@ == panel_vertices(
            *layout,
            matrix@,
            dragged,
            speed_log2,
            num_types as int,
            half_w,
            half_h,
        ),
{
    let mut verts: Vec<UiVertex> = Vec::with_capacity(UI_MAX_VERTICES);
    push_rect(&mut verts, &layout.panel_bg, make_shade(0, 55), half_w, half_h);
    push_rect(&mut verts, &layout.slider_track, make_shade(100, 25), half_w, half_h);
    let handle = slider_handle(layout, speed_log2);
    push_rect(&mut verts, &handle, make_shade(100, 90), half_w, half_h);
    let ghost frame = frame_vertices(*layout, speed_log2, half_w, half_h);
    assert(verts@ == frame);
    proof {
        assert(num_types <= 65535) by (nonlinear_arith)
            requires
                num_types * num_types <= u32::MAX,
        ;
    }

    let mut i: u32 = 0;
    while i < num_types
        invariant
            i <= num_types,
            num_types <= 65535,
            layout.wf(),
            verts@ == frame + all_headers(*layout, i as int, half_w, half_h),
        decreases num_types - i,
    {
        push_headers(&mut verts, layout, i, half_w, half_h);
        i = i + 1;
        assert(verts@ == frame + all_headers(*layout, i as int, half_w, half_h));
    }
    let ghost headers = all_headers(*layout, num_types as int, half_w, half_h);

    let total: u32 = num_types * num_types;
    let mut idx: u32 = 0;
    while idx < total
        invariant
            idx <= total,
            total == num_types * num_types,
            num_types <= 65535,
            matrix.len() >= total,
            layout.wf(),
            verts@ == frame + headers + all_entries(
                *layout,
                matrix@,
                dragged,
                num_types as int,
                idx as int,
                half_w,
                half_h,
            ),
        decreases total - idx,
    {
        proof {
            lemma_entry_position(idx as int, num_types as int);
            law_matrix_color_range(matrix[idx as int] as int);
        }
        let row: u32 = idx / num_types;
        let col: u32 = idx % num_types;
        let rect = grid_cell_rect(layout.grid_origin, row + 1, col + 1);
        let mut color = matrix_value_color(matrix[idx as usize]);
        if let Some(k) = dragged {
            if k == idx as usize {
                color = brighten(color);
            }
        }
        push_rect(&mut verts, &rect, color, half_w, half_h);
        idx = idx + 1;
        assert(verts@ == frame + headers + all_entries(
            *layout,
            matrix@,
            dragged,
            num_types as int,
            idx as int,
            half_w,
            half_h,
        ));
    }
    verts
}

proof fn lemma_headers_len(l: UiLayout, k: int, half_w: i64, half_h: i64)
    requires
        0 <= k,
    ensures
        all_headers(l, k, half_w, half_h).len() == 18 * k,
    decreases k,
{
    if k > 0 {
        lemma_headers_len(l, k - 1, half_w, half_h);
    }
}

proof fn lemma_entries_len(
    l: UiLayout,
    matrix: Seq<i64>,
    dragged: Option<usize>,
    n: int,
    k: int,
    half_w: i64,
    half_h: i64,
)
    requires
        0 <= k,
    ensures
        all_entries(l, matrix, dragged, n, k, half_w, half_h).len() == 6 * k,
    decreases k,
{
    if k > 0 {
        lemma_entries_len(l, matrix, dragged, n, k - 1, half_w, half_h);
    }
}

/// The panel has 18 vertices of its own, 18 for each type and 6 for each entry of the
/// matrix.
pub proof fn law_panel_size(
    l: UiLayout,
    matrix: Seq<i64>,
    dragged: Option<usize>,
    speed_log2: Ratio,
    n: int,
    half_w: i64,
    half_h: i64,
)
    requires
        0 <= n,
    ensures
        panel_vertices(l, matrix, dragged, speed_log2, n, half_w, half_h).len() == panel_size(n),
{
    assert(0 <= n * n) by (nonlinear_arith);
    lemma_headers_len(l, n, half_w, half_h);
    lemma_entries_len(l, matrix, dragged, n, n * n, half_w, half_h);
}

proof fn lemma_header_at(l: UiLayout, k: int, i: int, j: int, half_w: i64, half_h: i64)
    requires
        0 <= i < k,
        0 <= j < 18,
    ensures
        all_headers(l, k, half_w, half_h).len() == 18 * k,
        all_headers(l, k, half_w, half_h)[18 * i + j] == header_vertices(l, i, half_w, half_h)[j],
    decreases k,
{
    lemma_headers_len(l, k, half_w, half_h);
    lemma_headers_len(l, k - 1, half_w, half_h);
    if i < k - 1 {
        lemma_header_at(l, k - 1, i, j, half_w, half_h);
    }
}

proof fn lemma_entry_at(
    l: UiLayout,
    matrix: Seq<i64>,
    dragged: Option<usize>,
    n: int,
    k: int,
    e: int,
    j: int,
    half_w: i64,
    half_h: i64,
)
    requires
        0 <= e < k,
        0 <= j < 6,
    ensures
        all_entries(l, matrix, dragged, n, k, half_w, half_h).len() == 6 * k,
        all_entries(l, matrix, dragged, n, k, half_w, half_h)[6 * e + j] == rect_vertices(
            entry_rect(l, n, e),
            entry_color(matrix, dragged, e),
            half_w,
            half_h,
        )[j],
    decreases k,
{
    lemma_entries_len(l, matrix, dragged, n, k, half_w, half_h);
    lemma_entries_len(l, matrix, dragged, n, k - 1, half_w, half_h);
    if e < k - 1 {
        lemma_entry_at(l, matrix, dragged, n, k - 1, e, j, half_w, half_h);
    }
}

/// The panel starts with three rectangles: the background, black at 0.55 opacity, the
/// slider's track, white at 0.25, and on top of it the handle, white at 0.9.
pub proof fn law_panel_starts_with_the_slider(
    l: UiLayout,
    matrix: Seq<i64>,
    dragged: Option<usize>,
    speed_log2: Ratio,
    n: int,
    half_w: i64,
    half_h: i64,
    j: int,
)
    requires
        0 <= j < 6,
    ensures
        ({
            let v = panel_vertices(l, matrix, dragged, speed_log2, n, half_w, half_h);
            let black = Ratio { num: 0, den: 100 };
            let white = Ratio { num: 100, den: 100 };
            &&& v[j] == rect_vertices(
                l.panel_bg,
                [black, black, black, Ratio { num: 55, den: 100 }],
                half_w,
                half_h,
            )[j]
            &&& v[6 + j] == rect_vertices(
                l.slider_track,
                [white, white, white, Ratio { num: 25, den: 100 }],
                half_w,
                half_h,
            )[j]
            &&& v[12 + j] == rect_vertices(
                handle_rect(l, speed_log2),
                [white, white, white, Ratio { num: 90, den: 100 }],
                half_w,
                half_h,
            )[j]
        }),
{
}

/// Then come the headers, type by type: the swatch of the type on top of its column, in
/// the type's colour, with a dark chevron that points down, and the same swatch in front
/// of its row, with a dark chevron that points right.
#[verifier::spinoff_prover]
#[verifier::rlimit(40)]
pub proof fn law_panel_has_headers(
    l: UiLayout,
    matrix: Seq<i64>,
    dragged: Option<usize>,
    speed_log2: Ratio,
    n: int,
    half_w: i64,
    half_h: i64,
    t: int,
    j: int,
)
    requires
        0 <= t < n,
        0 <= j < 6,
    ensures
        ({
            let v = panel_vertices(l, matrix, dragged, speed_log2, n, half_w, half_h);
            let first = 18 + 18 * t;
            let dark = Ratio { num: 5, den: 100 };
            let ink = [dark, dark, dark, Ratio { num: 85, den: 100 }];
            let on_top = cell_rect(l.grid_origin, 0, t + 1);
            let in_front = cell_rect(l.grid_origin, t + 1, 0);
            &&& v[first + j] == rect_vertices(on_top, type_color(t), half_w, half_h)[j]
            &&& v[first + 9 + j] == rect_vertices(in_front, type_color(t), half_w, half_h)[j]
            &&& j < 3 ==> v[first + 6 + j] == down_chevron_vertices(on_top, ink, half_w, half_h)[j]
            &&& j < 3 ==> v[first + 15 + j] == right_chevron_vertices(in_front, ink, half_w, half_h)[j]
        }),
{
    lemma_header_at(l, n, t, j, half_w, half_h);
    lemma_header_at(l, n, t, 9 + j, half_w, half_h);
    if j < 3 {
        lemma_header_at(l, n, t, 6 + j, half_w, half_h);
        lemma_header_at(l, n, t, 15 + j, half_w, half_h);
    }
}

/// Last come the entries of the matrix: the pull of the row's type towards the column's
/// type is drawn where the row and the column of the two headers meet, in the colour of
/// its weight, and brighter while it is being dragged.
#[verifier::spinoff_prover]
#[verifier::rlimit(40)]
pub proof fn law_panel_shows_the_matrix(
    l: UiLayout,
    matrix: Seq<i64>,
    dragged: Option<usize>,
    speed_log2: Ratio,
    n: int,
    half_w: i64,
    half_h: i64,
    row: int,
    col: int,
    j: int,
)
    requires
        0 <= row < n,
        0 <= col < n,
        0 <= j < 6,
    ensures
        ({
            let v = panel_vertices(l, matrix, dragged, speed_log2, n, half_w, half_h);
            let k = row * n + col;
            let cell = cell_rect(l.grid_origin, row + 1, col + 1);
            let color = value_color(matrix[k] as int);
            let held = dragged is Some && dragged->0 == k;
            &&& held ==> v[18 + 18 * n + 6 * k + j] == rect_vertices(
                cell,
                brightened_color(color),
                half_w,
                half_h,
            )[j]
            &&& !held ==> v[18 + 18 * n + 6 * k + j] == rect_vertices(cell, color, half_w, half_h)[j]
        }),
{
    let k = row * n + col;
    assert(0 <= k < n * n) by (nonlinear_arith)
        requires
            k == row * n + col,
            0 <= row < n,
            0 <= col < n,
    ;
    assert(k == n * row + col) by (nonlinear_arith)
        requires
            k == row * n + col,
    ;
    vstd::arithmetic::div_mod::lemma_fundamental_div_mod_converse(k, n, row, col);
    lemma_headers_len(l, n, half_w, half_h);
    lemma_entry_at(l, matrix, dragged, n, n * n, k, j, half_w, half_h);
}

/// Up to eleven types, the panel fits into its vertex buffer.
pub proof fn law_panel_fits(n: int)
    requires
        0 <= n,
    ensures
        n <= 11 <==> panel_size(n) <= UI_MAX_VERTICES,
{
    if n <= 11 {
        assert(n * n <= 121) by (nonlinear_arith)
            requires
                0 <= n <= 11,
        ;
    } else {
        assert(n * n >= 144) by (nonlinear_arith)
            requires
                n >= 12,
        ;
    }
}

/// The handle is drawn where the mouse dragged it, or at the nearer end of the slider.
pub proof fn law_handle_follows_mouse(l: UiLayout, x: int)
    requires
        l.wf(),
    ensures
        handle_x(l, slider_speed(l, x)) == clamped(x, l.slider_x0 as int, l.slider_x1 as int),
{
    let w = l.slider_x1 - l.slider_x0;
    let c = clamped(x - l.slider_x0, 0, w);
    let e = slider_speed(l, x);
    assert(e.num + 5 * e.den == 6 * c);
    let d = 6 * w;
    assert(w * (6 * c) == d * c + 0) by (nonlinear_arith)
        requires
            d == 6 * w,
    ;
    vstd::arithmetic::div_mod::lemma_fundamental_div_mod_converse(w * (6 * c), d, c, 0);
}

/// The slider never leaves its range, and its ends are a thirty-second and twice the
/// normal speed.
pub proof fn law_slider_range(l: UiLayout, x: int)
    requires
        l.wf(),
    ensures
        speed_ok(slider_speed(l, x)),
        x <= l.slider_x0 ==> slider_speed(l, x).equals(-5, 1),
        x >= l.slider_x1 ==> slider_speed(l, x).equals(1, 1),
{
}

/// Along the slider the logarithm of the speed grows linearly with the mouse: its way from
/// -5 to 1 is covered by the same share as the way from the left end to the right end.
pub proof fn law_slider_is_linear(l: UiLayout, x: int)
    requires
        l.wf(),
        l.slider_x0 <= x <= l.slider_x1,
    ensures
        ({
            let e = slider_speed(l, x);
            &&& e.den > 0
            &&& (e.num + 5 * e.den) * (l.slider_x1 - l.slider_x0) == 6 * e.den * (x - l.slider_x0)
        }),
{
    let e = slider_speed(l, x);
    let w = l.slider_x1 - l.slider_x0;
    let c = x - l.slider_x0;
    assert((6 * c) * w == 6 * w * c) by (nonlinear_arith);
}

/// The handle is as far along the slider as the logarithm of the speed is along its range,
/// rounded down to a length unit, and it stops at the ends.
pub proof fn law_handle_is_linear(l: UiLayout, e: Ratio)
    requires
        l.wf(),
        speed_drawable(e),
    ensures
        ({
            let way = handle_x(l, e) - l.slider_x0;
            let whole = l.slider_x1 - l.slider_x0;
            &&& -5 * e.den <= e.num <= e.den ==> way * (6 * e.den) <= whole * (e.num + 5 * e.den)
                < (way + 1) * (6 * e.den)
            &&& e.num < -5 * e.den ==> way == 0
            &&& e.num > e.den ==> way == whole
        }),
{
    let w = l.slider_x1 - l.slider_x0;
    let d = 6 * e.den;
    let t = clamped(e.num + 5 * e.den, 0, d);
    lemma_fundamental_div_mod(w * t, d);
    lemma_mod_bound(w * t, d);
    let q = (w * t) / d;
    assert(d * q == q * d) by (nonlinear_arith);
    assert((q + 1) * d == q * d + d) by (nonlinear_arith);
    if e.num < -5 * e.den {
        assert(w * 0 == 0);
        vstd::arithmetic::div_mod::lemma_fundamental_div_mod_converse(w * t, d, 0, 0);
    }
    if e.num > e.den {
        assert(w * d == d * w) by (nonlinear_arith);
        vstd::arithmetic::div_mod::lemma_fundamental_div_mod_converse(w * t, d, w, 0);
    }
}

/// The handle is 12 pixels wide and 18 high, and its middle is on the middle of the track.
pub proof fn law_handle_size(l: UiLayout, e: Ratio)
    requires
        l.wf(),
        speed_drawable(e),
    ensures
        ({
            let r = handle_rect(l, e);
            &&& handle_x(l, e) - r.x0 == 6 * PX && r.x1 - handle_x(l, e) == 6 * PX
            &&& l.slider_y_center - r.y0 == 9 * PX && r.y1 - l.slider_y_center == 9 * PX
        }),
{
    lemma_handle_bounds(l, e);
}

/// Further to the right is faster, or no slower.
pub proof fn law_slider_is_monotonic(l: UiLayout, x: int, y: int)
    requires
        l.wf(),
        x <= y,
    ensures
        slider_speed(l, x).den == slider_speed(l, y).den,
        slider_speed(l, x).num <= slider_speed(l, y).num,
{
}

} // verus!
