//! The on-screen control panel: layout, hit-testing, and the coloured-triangle
//! geometry it is drawn with. Self-contained: numbers in and a list of vertices out.

use crate::units::{coord_ok, floor_div, near_coord_ok, Point, Ratio, PX};
use vstd::prelude::*;

verus! {

// Panel layout, in screen pixels.
pub const UI_MARGIN: i64 = 16;

pub const UI_CELL: i64 = 22;

pub const UI_GAP: i64 = 3;

pub const UI_SLIDER_W: i64 = 200;

pub const UI_SLIDER_H: i64 = 10;

pub const UI_ROW_GAP: i64 = 18;

/// The number of vertices that the panel's vertex buffer holds.
pub const UI_MAX_VERTICES: usize = 1024;

/// A vertex of the panel: its position as a fraction of the half-extents of the
/// screen, and its colour (red, green, blue, opacity).
#[derive(Clone, Copy, Debug)]
pub struct UiVertex {
    pub clip_pos: [Ratio; 2],
    pub color: [Ratio; 4],
}

/// A rectangle of the screen, edges included.
#[derive(Clone, Copy, PartialEq, Eq, Structural, Debug)]
pub struct UiRect {
    pub x0: i64,
    pub y0: i64,
    pub x1: i64,
    pub y1: i64,
}

impl UiRect {
    /// The point lies in the rectangle or on its edge.
    pub open spec fn holds(self, p: Point) -> bool {
        self.x0 <= p.x <= self.x1 && self.y0 <= p.y <= self.y1
    }

    /// The other rectangle lies inside this one.
    pub open spec fn encloses(self, other: UiRect) -> bool {
        self.x0 <= other.x0 && other.x1 <= self.x1 && self.y0 <= other.y0 && other.y1 <= self.y1
    }

    /// All four edges are far from the limits of `i64`.
    pub open spec fn drawable(self) -> bool {
        &&& -0x2000_0000_0000_0000 <= self.x0 <= 0x2000_0000_0000_0000
        &&& -0x2000_0000_0000_0000 <= self.y0 <= 0x2000_0000_0000_0000
        &&& -0x2000_0000_0000_0000 <= self.x1 <= 0x2000_0000_0000_0000
        &&& -0x2000_0000_0000_0000 <= self.y1 <= 0x2000_0000_0000_0000
    }

    /// Whether the point lies in the rectangle, edges included.
    pub fn contains(&self, p: Point) -> (r: bool)
        ensures
            r == self.holds(p),
    {
        p.x >= self.x0 && p.x <= self.x1 && p.y >= self.y0 && p.y <= self.y1
    }
}

/// Where the parts of the panel lie on the screen.
#[derive(Clone, Copy, Debug)]
pub struct UiLayout {
    pub slider_hit: UiRect,
    pub slider_track: UiRect,
    pub slider_x0: i64,
    pub slider_x1: i64,
    pub slider_y_center: i64,
    pub grid_origin: (i64, i64),
    pub panel_bg: UiRect,
}

impl UiLayout {
    /// The coordinates leave room for arithmetic, and the slider has a length.
    pub open spec fn wf(self) -> bool {
        &&& near_coord_ok(self.slider_x0 as int)
        &&& near_coord_ok(self.slider_x1 as int)
        &&& near_coord_ok(self.slider_y_center as int)
        &&& near_coord_ok(self.grid_origin.0 as int)
        &&& near_coord_ok(self.grid_origin.1 as int)
        &&& self.slider_x0 < self.slider_x1
    }
}

/// Length, in pixels, of a side of the grid: one header and `n` cells of 22 pixels,
/// 3 apart.
pub open spec fn grid_side(n: int) -> int {
    25 * n + 22
}

/// A rectangle by its edges.
pub open spec fn rect(x0: int, y0: int, x1: int, y1: int) -> UiRect {
    UiRect { x0: x0 as i64, y0: y0 as i64, x1: x1 as i64, y1: y1 as i64 }
}

/// The layout of the panel: everything hangs off the point 16 pixels in from the left
/// edge and 16 pixels down from the top edge of the screen.
pub open spec fn ui_layout(half_w: int, half_h: int, n: int) -> UiLayout {
    let left = -half_w + 16 * PX;
    let top = half_h - 16 * PX;
    let side = grid_side(n) * PX;
    UiLayout {
        slider_hit: rect(left - 4 * PX, top - 15 * PX, left + 204 * PX, top + 5 * PX),
        slider_track: rect(left, top - 10 * PX, left + 200 * PX, top),
        slider_x0: left as i64,
        slider_x1: (left + 200 * PX) as i64,
        slider_y_center: (top - 5 * PX) as i64,
        grid_origin: (left as i64, (top - 28 * PX) as i64),
        panel_bg: rect(
            left - 10 * PX,
            top - 38 * PX - side,
            left + 10 * PX + if side > 200 * PX {
                side
            } else {
                200 * PX
            },
            top + 10 * PX,
        ),
    }
}

/// The layout of the panel on a screen with the given half-extents, for a matrix of
/// `num_types` types.
pub fn compute_ui_layout(half_w: i64, half_h: i64, num_types: u32) -> (layout: UiLayout)
    requires
        coord_ok(half_w as int),
        coord_ok(half_h as int),
        num_types < u32::MAX,
    ensures
        layout == ui_layout(half_w as int, half_h as int, num_types as int),
{
    let panel_left: i64 = -half_w + UI_MARGIN * PX;
    let panel_top: i64 = half_h - UI_MARGIN * PX;

    let slider_x0: i64 = panel_left;
    let slider_x1: i64 = panel_left + UI_SLIDER_W * PX;
    let slider_half: i64 = UI_SLIDER_H * PX / 2;
    let slider_y_center: i64 = panel_top - slider_half;
    let slider_track = UiRect {
        x0: slider_x0,
        x1: slider_x1,
        y0: slider_y_center - slider_half,
        y1: slider_y_center + slider_half,
    };
    let slider_hit = UiRect {
        x0: slider_x0 - 4 * PX,
        x1: slider_x1 + 4 * PX,
        y0: slider_y_center - 10 * PX,
        y1: slider_y_center + 10 * PX,
    };

    let grid_top: i64 = slider_y_center - slider_half - UI_ROW_GAP * PX;
    let grid_origin: (i64, i64) = (panel_left, grid_top);

    let grid_cols: u32 = num_types + 1;
    let grid_rows: u32 = num_types + 1;
    let grid_w: i64 = (grid_cols as i64 * UI_CELL + (grid_cols - 1) as i64 * UI_GAP) * PX;
    let grid_h: i64 = (grid_rows as i64 * UI_CELL + (grid_rows - 1) as i64 * UI_GAP) * PX;
    let grid_right: i64 = panel_left + grid_w;
    let panel_bg = UiRect {
        x0: panel_left - 10 * PX,
        x1: (if grid_right > slider_x1 {
            grid_right
        } else {
            slider_x1
        }) + 10 * PX,
        y0: grid_top - grid_h - 10 * PX,
        y1: panel_top + 10 * PX,
    };

    UiLayout {
        slider_hit,
        slider_track,
        slider_x0,
        slider_x1,
        slider_y_center,
        grid_origin,
        panel_bg,
    }
}

/// The cell in the given row and column of the grid: 22 pixels on a side, at a pitch
/// of 25.
pub open spec fn cell_rect(origin: (i64, i64), row: int, col: int) -> UiRect {
    let x0 = origin.0 + 25 * col * PX;
    let y1 = origin.1 - 25 * row * PX;
    rect(x0, y1 - 22 * PX, x0 + 22 * PX, y1)
}

/// The distance of cell `k` from the grid's edge, and its magnitude.
proof fn lemma_pitch(k: int, pitch: int)
    requires
        0 <= k <= u32::MAX,
        pitch == 25 * PX,
    ensures
        k * pitch == 25 * k * PX,
        0 <= k * pitch <= 0x1a00_0000_0000_0000,
{
    assert(k * pitch == pitch * k) by (nonlinear_arith);
    assert(pitch == 419_430_400);
    assert(419_430_400 * k == 25 * k * 16_777_216);
}

/// The cell in the given row and column of the grid. Row 0 and column 0 are the
/// type-colour header swatches; the cells from row 1 and column 1 on are the entries
/// of the interaction matrix.
pub fn grid_cell_rect(origin: (i64, i64), row: u32, col: u32) -> (r: UiRect)
    requires
        near_coord_ok(origin.0 as int),
        near_coord_ok(origin.1 as int),
    ensures
        r == cell_rect(origin, row as int, col as int),
{
    let pitch: i64 = (UI_CELL + UI_GAP) * PX;
    proof {
        lemma_pitch(col as int, pitch as int);
        lemma_pitch(row as int, pitch as int);
    }
    let x0: i64 = origin.0 + col as i64 * pitch;
    let y1: i64 = origin.1 - row as i64 * pitch;
    UiRect { x0, x1: x0 + UI_CELL * PX, y0: y1 - UI_CELL * PX, y1 }
}

/// The vertex at a point of the screen.
pub open spec fn vertex_at(p: (int, int), color: [Ratio; 4], half_w: i64, half_h: i64) -> UiVertex {
    UiVertex {
        clip_pos: [
            Ratio { num: p.0 as i128, den: half_w as i128 },
            Ratio { num: p.1 as i128, den: half_h as i128 },
        ],
        color,
    }
}

/// The vertices of a triangle.
pub open spec fn triangle_vertices(
    p0: (int, int),
    p1: (int, int),
    p2: (int, int),
    color: [Ratio; 4],
    half_w: i64,
    half_h: i64,
) -> Seq<UiVertex> {
    seq![
        vertex_at(p0, color, half_w, half_h),
        vertex_at(p1, color, half_w, half_h),
        vertex_at(p2, color, half_w, half_h),
    ]
}

/// The vertices of a rectangle: the triangles on both sides of the diagonal from the
/// lower left to the upper right corner.
pub open spec fn rect_vertices(r: UiRect, color: [Ratio; 4], half_w: i64, half_h: i64) -> Seq<UiVertex> {
    let p00 = (r.x0 as int, r.y0 as int);
    let p10 = (r.x1 as int, r.y0 as int);
    let p11 = (r.x1 as int, r.y1 as int);
    let p01 = (r.x0 as int, r.y1 as int);
    triangle_vertices(p00, p10, p11, color, half_w, half_h) + triangle_vertices(
        p00,
        p11,
        p01,
        color,
        half_w,
        half_h,
    )
}

/// The vertices of the chevron that points down in a rectangle: the tip is 3 pixels
/// above the middle of the lower edge, the other two corners 3 pixels below the upper
/// edge, 5 to either side.
pub open spec fn down_chevron_vertices(r: UiRect, color: [Ratio; 4], half_w: i64, half_h: i64) -> Seq<
    UiVertex,
> {
    let cx = (r.x0 + r.x1) / 2;
    triangle_vertices(
        (cx, r.y0 + 3 * PX),
        (cx - 5 * PX, r.y1 - 3 * PX),
        (cx + 5 * PX, r.y1 - 3 * PX),
        color,
        half_w,
        half_h,
    )
}

/// The vertices of the chevron that points right in a rectangle.
pub open spec fn right_chevron_vertices(r: UiRect, color: [Ratio; 4], half_w: i64, half_h: i64) -> Seq<
    UiVertex,
> {
    let cy = (r.y0 + r.y1) / 2;
    triangle_vertices(
        (r.x1 - 3 * PX, cy),
        (r.x0 + 3 * PX, cy + 5 * PX),
        (r.x0 + 3 * PX, cy - 5 * PX),
        color,
        half_w,
        half_h,
    )
}

/// The vertex at a point of the screen.
fn make_vertex(p: (i64, i64), color: [Ratio; 4], half_w: i64, half_h: i64) -> (v: UiVertex)
    ensures
        v == vertex_at((p.0 as int, p.1 as int), color, half_w, half_h),
{
    UiVertex {
        clip_pos: [
            Ratio { num: p.0 as i128, den: half_w as i128 },
            Ratio { num: p.1 as i128, den: half_h as i128 },
        ],
        color,
    }
}

/// Appends a triangle.
pub fn push_triangle(
    verts: &mut Vec<UiVertex>,
    p0: (i64, i64),
    p1: (i64, i64),
    p2: (i64, i64),
    color: [Ratio; 4],
    half_w: i64,
    half_h: i64,
)
    ensures
        final(verts)@ == old(verts)@ + triangle_vertices(
            (p0.0 as int, p0.1 as int),
            (p1.0 as int, p1.1 as int),
            (p2.0 as int, p2.1 as int),
            color,
            half_w,
            half_h,
        ),
{
    verts.push(make_vertex(p0, color, half_w, half_h));
    verts.push(make_vertex(p1, color, half_w, half_h));
    verts.push(make_vertex(p2, color, half_w, half_h));
}

/// Appends the chevron of a column header ("read down this column").
pub fn push_down_chevron(
    verts: &mut Vec<UiVertex>,
    rect: &UiRect,
    color: [Ratio; 4],
    half_w: i64,
    half_h: i64,
)
    requires
        rect.drawable(),
    ensures
        final(verts)@ == old(verts)@ + down_chevron_vertices(*rect, color, half_w, half_h),
{
    let cx: i64 = floor_div((rect.x0 + rect.x1) as i128, 2) as i64;
    push_triangle(
        verts,
        (cx, rect.y0 + 3 * PX),
        (cx - 5 * PX, rect.y1 - 3 * PX),
        (cx + 5 * PX, rect.y1 - 3 * PX),
        color,
        half_w,
        half_h,
    );
}

/// Appends the chevron of a row header ("read across this row").
pub fn push_right_chevron(
    verts: &mut Vec<UiVertex>,
    rect: &UiRect,
    color: [Ratio; 4],
    half_w: i64,
    half_h: i64,
)
    requires
        rect.drawable(),
    ensures
        final(verts)@ == old(verts)@ + right_chevron_vertices(*rect, color, half_w, half_h),
{
    let cy: i64 = floor_div((rect.y0 + rect.y1) as i128, 2) as i64;
    push_triangle(
        verts,
        (rect.x1 - 3 * PX, cy),
        (rect.x0 + 3 * PX, cy + 5 * PX),
        (rect.x0 + 3 * PX, cy - 5 * PX),
        color,
        half_w,
        half_h,
    );
}

/// Appends a rectangle.
pub fn push_rect(
    verts: &mut Vec<UiVertex>,
    rect: &UiRect,
    color: [Ratio; 4],
    half_w: i64,
    half_h: i64,
)
    ensures
        final(verts)@ == old(verts)@ + rect_vertices(*rect, color, half_w, half_h),
{
    let p00 = make_vertex((rect.x0, rect.y0), color, half_w, half_h);
    let p10 = make_vertex((rect.x1, rect.y0), color, half_w, half_h);
    let p11 = make_vertex((rect.x1, rect.y1), color, half_w, half_h);
    let p01 = make_vertex((rect.x0, rect.y1), color, half_w, half_h);
    verts.push(p00);
    verts.push(p10);
    verts.push(p11);
    verts.push(p00);
    verts.push(p11);
    verts.push(p01);
}

/// The layout of any screen of ordinary size is fit for hit-testing and dragging.
pub proof fn law_layout_wf(half_w: int, half_h: int, n: int)
    requires
        coord_ok(half_w),
        coord_ok(half_h),
        0 <= n < u32::MAX,
    ensures
        ui_layout(half_w, half_h, n).wf(),
{
}

/// A point is outside a rectangle exactly if it is to the left of it, to the right of it,
/// below it or above it.
pub proof fn law_outside_is_beyond_an_edge(r: UiRect, p: Point)
    ensures
        !r.holds(p) <==> p.x < r.x0 || r.x1 < p.x || p.y < r.y0 || r.y1 < p.y,
{
}

/// The slider hangs in the upper left corner of the screen, 16 pixels in from both edges;
/// it is 200 pixels long and 10 high, and it reacts to the mouse 4 pixels to either side
/// and 5 pixels above and below.
pub proof fn law_slider_hangs_in_the_corner(half_w: int, half_h: int, n: int)
    requires
        coord_ok(half_w),
        coord_ok(half_h),
        0 <= n < u32::MAX,
    ensures
        ({
            let l = ui_layout(half_w, half_h, n);
            let t = l.slider_track;
            let h = l.slider_hit;
            &&& t.x0 - (-half_w) == 16 * PX && half_h - t.y1 == 16 * PX
            &&& t.x1 - t.x0 == 200 * PX && t.y1 - t.y0 == 10 * PX
            &&& t.x0 - h.x0 == 4 * PX && h.x1 - t.x1 == 4 * PX
            &&& t.y0 - h.y0 == 5 * PX && h.y1 - t.y1 == 5 * PX
            &&& l.slider_x0 == t.x0 && l.slider_x1 == t.x1
            &&& l.slider_y_center - t.y0 == t.y1 - l.slider_y_center
        }),
{
}

/// The grid starts 18 pixels below the slider, flush with it on the left. The background
/// reaches 10 pixels beyond the slider and the grid on all four sides, and no further.
pub proof fn law_grid_hangs_below_the_slider(half_w: int, half_h: int, n: int)
    requires
        coord_ok(half_w),
        coord_ok(half_h),
        0 <= n < u32::MAX,
    ensures
        ({
            let l = ui_layout(half_w, half_h, n);
            let last = cell_rect(l.grid_origin, n, n);
            &&& l.grid_origin.0 == l.slider_track.x0
            &&& l.slider_track.y0 - l.grid_origin.1 == 18 * PX
            &&& l.slider_track.x0 - l.panel_bg.x0 == 10 * PX
            &&& l.panel_bg.y1 - l.slider_track.y1 == 10 * PX
            &&& last.y0 - l.panel_bg.y0 == 10 * PX
            &&& l.panel_bg.x1 - 10 * PX >= last.x1
            &&& l.panel_bg.x1 - 10 * PX >= l.slider_track.x1
            &&& l.panel_bg.x1 - 10 * PX == last.x1 || l.panel_bg.x1 - 10 * PX == l.slider_track.x1
        }),
{
}

/// Cells are 22 pixels on a side. The first one touches the grid's origin from the lower
/// right; the next one in a row is 3 pixels further right, the next one in a column 3
/// pixels further down.
pub proof fn law_cells_tile_the_grid(origin: (i64, i64), row: int, col: int)
    requires
        near_coord_ok(origin.0 as int),
        near_coord_ok(origin.1 as int),
        0 <= row < u32::MAX,
        0 <= col < u32::MAX,
    ensures
        ({
            let c = cell_rect(origin, row, col);
            let right = cell_rect(origin, row, col + 1);
            let below = cell_rect(origin, row + 1, col);
            &&& c.x1 - c.x0 == 22 * PX && c.y1 - c.y0 == 22 * PX
            &&& col == 0 ==> c.x0 == origin.0
            &&& row == 0 ==> c.y1 == origin.1
            &&& right.x0 - c.x1 == 3 * PX && right.y0 == c.y0 && right.y1 == c.y1
            &&& c.y0 - below.y1 == 3 * PX && below.x0 == c.x0 && below.x1 == c.x1
        }),
{
}

/// A vertex lies at its point of the screen, as a fraction of the half-extents, and has
/// the colour that it was given.
pub proof fn law_vertex_is_its_point(p: (int, int), color: [Ratio; 4], half_w: i64, half_h: i64)
    requires
        -0x4000_0000_0000_0000 <= p.0 <= 0x4000_0000_0000_0000,
        -0x4000_0000_0000_0000 <= p.1 <= 0x4000_0000_0000_0000,
    ensures
        vertex_at(p, color, half_w, half_h).clip_pos[0].num == p.0,
        vertex_at(p, color, half_w, half_h).clip_pos[0].den == half_w,
        vertex_at(p, color, half_w, half_h).clip_pos[1].num == p.1,
        vertex_at(p, color, half_w, half_h).clip_pos[1].den == half_h,
        vertex_at(p, color, half_w, half_h).color == color,
{
}

/// A triangle has its three corners as vertices, in order.
pub proof fn law_triangle_has_its_corners(
    p: Seq<(int, int)>,
    color: [Ratio; 4],
    half_w: i64,
    half_h: i64,
    i: int,
)
    requires
        p.len() == 3,
        0 <= i < 3,
    ensures
        triangle_vertices(p[0], p[1], p[2], color, half_w, half_h).len() == 3,
        triangle_vertices(p[0], p[1], p[2], color, half_w, half_h)[i] == vertex_at(
            p[i],
            color,
            half_w,
            half_h,
        ),
{
}

/// A rectangle is drawn as two triangles: lower left, lower right and upper right corner,
/// and lower left, upper right and upper left corner.
pub proof fn law_rect_has_its_corners(r: UiRect, color: [Ratio; 4], half_w: i64, half_h: i64, i: int)
    requires
        0 <= i < 6,
    ensures
        ({
            let v = rect_vertices(r, color, half_w, half_h);
            let right = i == 1 || i == 2 || i == 4;
            let upper = i == 2 || i == 4 || i == 5;
            &&& v.len() == 6
            &&& v[i].clip_pos[0].num == (if right { r.x1 } else { r.x0 })
            &&& v[i].clip_pos[1].num == (if upper { r.y1 } else { r.y0 })
            &&& v[i].clip_pos[0].den == half_w
            &&& v[i].clip_pos[1].den == half_h
            &&& v[i].color == color
        }),
{
}

/// The chevron of a column points down: its tip is below its other two corners, 3 pixels
/// above the lower edge and midway between the sides, and the other corners are 3 pixels
/// below the upper edge, 5 pixels to either side of the tip.
pub proof fn law_down_chevron_points_down(r: UiRect, color: [Ratio; 4], half_w: i64, half_h: i64)
    requires
        r.drawable(),
    ensures
        ({
            let v = down_chevron_vertices(r, color, half_w, half_h);
            let tip = v[0].clip_pos[0].num;
            &&& v.len() == 3
            &&& 0 <= r.x0 + r.x1 - 2 * tip <= 1
            &&& v[0].clip_pos[1].num - r.y0 == 3 * PX
            &&& tip - v[1].clip_pos[0].num == 5 * PX && v[2].clip_pos[0].num - tip == 5 * PX
            &&& r.y1 - v[1].clip_pos[1].num == 3 * PX && r.y1 - v[2].clip_pos[1].num == 3 * PX
            &&& forall|i: int|
                0 <= i < 3 ==> (#[trigger] v[i]).color == color && v[i].clip_pos[0].den == half_w
                    && v[i].clip_pos[1].den == half_h
        }),
{
}

/// The chevron of a row points right: its tip is to the right of its other two corners, 3
/// pixels before the right edge and midway between top and bottom, and the other corners
/// are 3 pixels behind the left edge, 5 pixels above and below the tip.
pub proof fn law_right_chevron_points_right(r: UiRect, color: [Ratio; 4], half_w: i64, half_h: i64)
    requires
        r.drawable(),
    ensures
        ({
            let v = right_chevron_vertices(r, color, half_w, half_h);
            let tip = v[0].clip_pos[1].num;
            &&& v.len() == 3
            &&& 0 <= r.y0 + r.y1 - 2 * tip <= 1
            &&& r.x1 - v[0].clip_pos[0].num == 3 * PX
            &&& v[1].clip_pos[1].num - tip == 5 * PX && tip - v[2].clip_pos[1].num == 5 * PX
            &&& v[1].clip_pos[0].num - r.x0 == 3 * PX && v[2].clip_pos[0].num - r.x0 == 3 * PX
            &&& forall|i: int|
                0 <= i < 3 ==> (#[trigger] v[i]).color == color && v[i].clip_pos[0].den == half_w
                    && v[i].clip_pos[1].den == half_h
        }),
{
}

/// The panel's background encloses the slider, the area that reacts to the mouse
/// around it, and every cell of the grid.
pub proof fn law_panel_encloses_its_parts(half_w: int, half_h: int, n: int, row: int, col: int)
    requires
        coord_ok(half_w),
        coord_ok(half_h),
        0 <= n < u32::MAX,
        0 <= row <= n,
        0 <= col <= n,
    ensures
        ({
            let l = ui_layout(half_w, half_h, n);
            &&& l.panel_bg.encloses(l.slider_track)
            &&& l.panel_bg.encloses(l.slider_hit)
            &&& l.slider_hit.encloses(l.slider_track)
            &&& l.panel_bg.encloses(cell_rect(l.grid_origin, row, col))
        }),
{
}

/// No point lies in two cells of the grid.
pub proof fn law_cells_are_disjoint(
    origin: (i64, i64),
    row: int,
    col: int,
    other_row: int,
    other_col: int,
    p: Point,
)
    requires
        near_coord_ok(origin.0 as int),
        near_coord_ok(origin.1 as int),
        0 <= row <= u32::MAX,
        0 <= col <= u32::MAX,
        0 <= other_row <= u32::MAX,
        0 <= other_col <= u32::MAX,
        cell_rect(origin, row, col).holds(p),
        cell_rect(origin, other_row, other_col).holds(p),
    ensures
        row == other_row,
        col == other_col,
{
}

/// No point of the slider's reacting area lies in a cell of the grid.
pub proof fn law_slider_and_cells_are_disjoint(
    half_w: int,
    half_h: int,
    n: int,
    row: int,
    col: int,
    p: Point,
)
    requires
        coord_ok(half_w),
        coord_ok(half_h),
        0 <= n < u32::MAX,
        0 <= row <= n,
        0 <= col <= n,
        ui_layout(half_w, half_h, n).slider_hit.holds(p),
    ensures
        !cell_rect(ui_layout(half_w, half_h, n).grid_origin, row, col).holds(p),
{
}

/// A rectangle that fills the screen is drawn over the whole clip space, from -1 to 1
/// in both directions.
pub proof fn law_full_screen_rect(half_w: i64, half_h: i64, color: [Ratio; 4], i: int)
    requires
        coord_ok(half_w as int),
        coord_ok(half_h as int),
        0 < half_w,
        0 < half_h,
        0 <= i < 6,
    ensures
        ({
            let r = UiRect {
                x0: (-half_w) as i64,
                y0: (-half_h) as i64,
                x1: half_w,
                y1: half_h,
            };
            let v = rect_vertices(r, color, half_w, half_h)[i];
            &&& v.clip_pos[0].equals(-1, 1) || v.clip_pos[0].equals(1, 1)
            &&& v.clip_pos[1].equals(-1, 1) || v.clip_pos[1].equals(1, 1)
        }),
{
}

/// Both chevrons of a header cell lie inside the cell.
pub proof fn law_chevrons_stay_in_their_cell(
    origin: (i64, i64),
    row: int,
    col: int,
    color: [Ratio; 4],
    half_w: i64,
    half_h: i64,
    i: int,
)
    requires
        near_coord_ok(origin.0 as int),
        near_coord_ok(origin.1 as int),
        0 <= row <= u32::MAX,
        0 <= col <= u32::MAX,
        0 <= i < 3,
    ensures
        ({
            let r = cell_rect(origin, row, col);
            let d = down_chevron_vertices(r, color, half_w, half_h)[i];
            let e = right_chevron_vertices(r, color, half_w, half_h)[i];
            &&& r.x0 <= d.clip_pos[0].num <= r.x1 && r.y0 <= d.clip_pos[1].num <= r.y1
            &&& r.x0 <= e.clip_pos[0].num <= r.x1 && r.y0 <= e.clip_pos[1].num <= r.y1
        }),
{
}

} // verus!
