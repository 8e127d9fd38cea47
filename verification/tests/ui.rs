use particle_life::color::{brighten, hsv_to_rgb, matrix_value_color, type_color_rgb};
use particle_life::panel::{build_ui, slider_handle, speed_at};
use particle_life::ui::{
    compute_ui_layout, grid_cell_rect, push_down_chevron, push_rect, push_right_chevron,
    push_triangle, UiRect, UiVertex, UI_MAX_VERTICES,
};
use particle_life::units::{Point, Ratio, PX, WEIGHT_ONE};

fn rect(x0: i64, y0: i64, x1: i64, y1: i64) -> UiRect {
    UiRect { x0: x0 * PX, y0: y0 * PX, x1: x1 * PX, y1: y1 * PX }
}

fn at(x: i64, y: i64) -> Point {
    Point { x: x * PX, y: y * PX }
}

fn ratio(num: i128, den: i128) -> Ratio {
    Ratio { num, den }
}

fn as_f32(r: Ratio) -> f32 {
    (r.num as f64 / r.den as f64) as f32
}

fn close(r: Ratio, v: f64) -> bool {
    (r.num as f64 / r.den as f64 - v).abs() < 1e-9
}

const WHITE: [Ratio; 4] = [Ratio { num: 1, den: 1 }; 4];

fn corners(verts: &[UiVertex]) -> Vec<(i128, i128)> {
    verts
        .iter()
        .map(|v| (v.clip_pos[0].num / PX as i128, v.clip_pos[1].num / PX as i128))
        .collect()
}

#[test]
fn contains_includes_the_edges() {
    let r = rect(-1, -2, 3, 4);
    assert!(r.contains(at(-1, -2)));
    assert!(r.contains(at(3, 4)));
    assert!(r.contains(at(0, 0)));
    assert!(!r.contains(at(4, 0)));
    assert!(!r.contains(at(0, 5)));
    assert!(!r.contains(Point { x: -PX - 1, y: 0 }));
    assert!(!r.contains(Point { x: 0, y: -2 * PX - 1 }));
}

#[test]
fn layout_of_the_initial_window() {
    let l = compute_ui_layout(640 * PX, 360 * PX, 6);
    assert_eq!(l.slider_track, rect(-624, 334, -424, 344));
    assert_eq!(l.slider_hit, rect(-628, 329, -420, 349));
    assert_eq!(l.slider_x0, -624 * PX);
    assert_eq!(l.slider_x1, -424 * PX);
    assert_eq!(l.slider_y_center, 339 * PX);
    assert_eq!(l.grid_origin, (-624 * PX, 316 * PX));
    assert_eq!(l.panel_bg, rect(-634, 134, -414, 354));
}

#[test]
fn wide_grid_widens_the_panel() {
    let l = compute_ui_layout(640 * PX, 360 * PX, 10);
    assert_eq!(l.panel_bg, rect(-634, 316 - 272 - 10, -624 + 272 + 10, 354));
    let l = compute_ui_layout(640 * PX, 360 * PX, 0);
    assert_eq!(l.panel_bg, rect(-634, 316 - 22 - 10, -414, 354));
}

#[test]
fn cells_have_a_pitch_of_25_pixels() {
    let origin = (-624 * PX, 316 * PX);
    assert_eq!(grid_cell_rect(origin, 0, 0), rect(-624, 294, -602, 316));
    assert_eq!(grid_cell_rect(origin, 1, 1), rect(-599, 269, -577, 291));
    assert_eq!(grid_cell_rect(origin, 2, 5), rect(-499, 244, -477, 266));
}

#[test]
fn cells_do_not_overlap() {
    let origin = (0, 0);
    for x in 0..100 {
        for y in 0..100 {
            let p = at(x, -y);
            let mut hits = 0;
            for row in 0..4 {
                for col in 0..4 {
                    if grid_cell_rect(origin, row, col).contains(p) {
                        hits += 1;
                    }
                }
            }
            assert!(hits <= 1);
        }
    }
}

#[test]
fn triangle_is_appended() {
    let mut v = Vec::new();
    push_triangle(&mut v, (PX, 2 * PX), (3 * PX, 4 * PX), (-5 * PX, 6 * PX), WHITE, 10 * PX, 20 * PX);
    push_triangle(&mut v, (0, 0), (0, 0), (0, 0), WHITE, 10 * PX, 20 * PX);
    assert_eq!(v.len(), 6);
    assert_eq!(corners(&v[..3]), vec![(1, 2), (3, 4), (-5, 6)]);
    assert_eq!(as_f32(v[0].clip_pos[0]), 1.0f32 / 10.0);
    assert_eq!(as_f32(v[2].clip_pos[0]), -5.0f32 / 10.0);
    assert_eq!(as_f32(v[2].clip_pos[1]), 6.0f32 / 20.0);
    assert_eq!(v[0].color, WHITE);
}

#[test]
fn rect_is_two_triangles() {
    let mut v = Vec::new();
    push_rect(&mut v, &rect(1, 2, 3, 4), WHITE, 640 * PX, 360 * PX);
    assert_eq!(corners(&v), vec![(1, 2), (3, 2), (3, 4), (1, 2), (3, 4), (1, 4)]);
    assert_eq!(as_f32(v[1].clip_pos[0]), 3.0f32 / 640.0);
    assert_eq!(as_f32(v[2].clip_pos[1]), 4.0f32 / 360.0);
}

#[test]
fn full_screen_rect_fills_clip_space() {
    let mut v = Vec::new();
    push_rect(&mut v, &rect(-640, -360, 640, 360), WHITE, 640 * PX, 360 * PX);
    let clip: Vec<(f32, f32)> =
        v.iter().map(|v| (as_f32(v.clip_pos[0]), as_f32(v.clip_pos[1]))).collect();
    assert_eq!(
        clip,
        vec![(-1.0, -1.0), (1.0, -1.0), (1.0, 1.0), (-1.0, -1.0), (1.0, 1.0), (-1.0, 1.0)]
    );
}

#[test]
fn empty_screen_keeps_the_numerator() {
    let mut v = Vec::new();
    push_rect(&mut v, &rect(1, 2, 3, 4), WHITE, 0, 0);
    assert_eq!(v[0].clip_pos[0], ratio(PX as i128, 0));
}

#[test]
fn chevrons_point_down_and_right() {
    let cell = rect(-624, 294, -602, 316);
    let mut v = Vec::new();
    push_down_chevron(&mut v, &cell, WHITE, 640 * PX, 360 * PX);
    assert_eq!(corners(&v), vec![(-613, 297), (-618, 313), (-608, 313)]);
    let mut v = Vec::new();
    push_right_chevron(&mut v, &cell, WHITE, 640 * PX, 360 * PX);
    assert_eq!(corners(&v), vec![(-605, 305), (-621, 310), (-621, 300)]);
}

#[test]
fn primary_and_secondary_hues() {
    let one = ratio(1, 1);
    let rgb = |n: i128| {
        let c = hsv_to_rgb(ratio(n, 6), one, one);
        [as_f32(c[0]), as_f32(c[1]), as_f32(c[2])]
    };
    assert_eq!(rgb(0), [1.0, 0.0, 0.0]);
    assert_eq!(rgb(1), [1.0, 1.0, 0.0]);
    assert_eq!(rgb(2), [0.0, 1.0, 0.0]);
    assert_eq!(rgb(3), [0.0, 1.0, 1.0]);
    assert_eq!(rgb(4), [0.0, 0.0, 1.0]);
    assert_eq!(rgb(5), [1.0, 0.0, 1.0]);
}

#[test]
fn hues_between_and_outside_the_circle() {
    let c = hsv_to_rgb(ratio(1, 12), ratio(1, 2), ratio(4, 5));
    assert!(close(c[0], 0.8) && close(c[1], 0.6) && close(c[2], 0.4));
    // Past the end of the circle the last sector goes on.
    let c = hsv_to_rgb(ratio(13, 12), ratio(1, 1), ratio(1, 1));
    assert!(close(c[0], 1.0) && close(c[1], 0.0) && close(c[2], 0.5));
    // Before its start the first sector goes on, with a signed remainder.
    let c = hsv_to_rgb(ratio(-1, 12), ratio(1, 1), ratio(1, 1));
    assert!(close(c[0], 1.0) && close(c[1], -0.5) && close(c[2], 0.0));
}

#[test]
fn no_saturation_is_gray() {
    let c = hsv_to_rgb(ratio(7, 10), ratio(0, 1), ratio(3, 10));
    assert!(close(c[0], 0.3) && close(c[1], 0.3) && close(c[2], 0.3));
}

#[test]
fn color_of_type_zero() {
    let c = type_color_rgb(0);
    assert!(close(c[0], 0.7975) && close(c[1], 0.33) && close(c[2], 0.33));
    assert_eq!(c[3], ratio(1, 1));
}

#[test]
fn color_of_type_one() {
    // Hue 0.6180339887 lies in the fourth sector, between cyan and blue.
    let hp = 0.6180339887f64 * 6.0;
    let x = 0.85 * (1.0 - (hp % 2.0 - 1.0).abs());
    let mute = |v: f64| 0.55 + (v - 0.55) * 0.55;
    let c = type_color_rgb(1);
    assert!(close(c[0], mute(0.15)));
    assert!(close(c[1], mute(x + 0.15)));
    assert!(close(c[2], mute(1.0)));
}

#[test]
fn type_colors_are_in_range() {
    for t in [0, 1, 2, 3, 4, 5, 1000, u32::MAX] {
        for c in type_color_rgb(t) {
            assert!(c.den > 0 && 0 <= c.num && c.num <= c.den);
        }
    }
}

#[test]
fn matrix_scale_ends() {
    let rgb = |v: i64| {
        let c = matrix_value_color(v);
        assert_eq!(c[3], ratio(1, 1));
        [as_f32(c[0]), as_f32(c[1]), as_f32(c[2])]
    };
    assert_eq!(rgb(0), [0.24, 0.24, 0.27]);
    assert_eq!(rgb(WEIGHT_ONE), [0.25, 0.55, 0.48]);
    assert_eq!(rgb(-WEIGHT_ONE), [0.55, 0.30, 0.28]);
    assert_eq!(rgb(5 * WEIGHT_ONE), rgb(WEIGHT_ONE));
    assert_eq!(rgb(i64::MIN), rgb(-WEIGHT_ONE));
}

#[test]
fn matrix_scale_in_between() {
    let c = matrix_value_color(WEIGHT_ONE / 2);
    assert!(close(c[0], 0.245) && close(c[1], 0.395) && close(c[2], 0.375));
    let c = matrix_value_color(-WEIGHT_ONE / 4);
    assert!(close(c[0], 0.3175) && close(c[1], 0.255) && close(c[2], 0.2725));
}

#[test]
fn brighten_stops_at_one() {
    let c = brighten([ratio(1, 10), ratio(65, 100), ratio(9, 10), ratio(1, 2)]);
    assert!(close(c[0], 0.45) && close(c[1], 1.0) && close(c[2], 1.0));
    assert_eq!(c[3], ratio(1, 2));
}

#[test]
fn slider_ends_and_middle() {
    let l = compute_ui_layout(640 * PX, 360 * PX, 6);
    let log2 = |x: i64| {
        let e = speed_at(&l, x * PX);
        e.num as f64 / e.den as f64
    };
    assert_eq!(log2(-624), -5.0);
    assert_eq!(log2(-424), 1.0);
    assert_eq!(log2(-524), -2.0);
    assert_eq!(log2(-640), -5.0);
    assert_eq!(log2(640), 1.0);
}

#[test]
fn handle_sits_where_it_was_dragged() {
    let l = compute_ui_layout(640 * PX, 360 * PX, 6);
    let handle = slider_handle(&l, speed_at(&l, -500 * PX));
    assert_eq!(handle, rect(-506, 330, -494, 348));
    let handle = slider_handle(&l, speed_at(&l, -500 * PX + 1));
    assert_eq!(handle.x0, -506 * PX + 1);
    let handle = slider_handle(&l, speed_at(&l, 100 * PX));
    assert_eq!(handle, rect(-430, 330, -418, 348));
}

#[test]
fn handle_at_normal_speed() {
    let l = compute_ui_layout(640 * PX, 360 * PX, 6);
    let handle = slider_handle(&l, ratio(0, 1));
    // Five sixths of the way along 200 pixels.
    assert_eq!(handle.x0 + 6 * PX, -624 * PX + 200 * PX * 5 / 6);
}

#[test]
fn panel_of_six_types() {
    let l = compute_ui_layout(640 * PX, 360 * PX, 6);
    let mut matrix = vec![0; 36];
    matrix[7] = WEIGHT_ONE;
    let v = build_ui(&matrix, Some(7), ratio(0, 1), &l, 640 * PX, 360 * PX, 6);
    assert_eq!(v.len(), 18 + 18 * 6 + 6 * 36);
    assert!(v.len() <= UI_MAX_VERTICES);
    assert_eq!(corners(&v[..3]), vec![(-634, 134), (-414, 134), (-414, 354)]);
    assert!(close(v[0].color[3], 0.55) && close(v[0].color[0], 0.0));
    assert!(close(v[6].color[3], 0.25) && close(v[6].color[0], 1.0));
    assert!(close(v[12].color[3], 0.9));
    // The first header swatch is on top of the first column, then its chevron.
    assert_eq!(corners(&v[18..19]), vec![(-599, 294)]);
    assert!(close(v[18].color[0], 0.7975));
    assert!(close(v[24].color[0], 0.05) && close(v[24].color[3], 0.85));
    // Then the swatch in front of the first row.
    assert_eq!(corners(&v[27..28]), vec![(-624, 269)]);
    // The first entry, and the dragged one in the second row and column.
    let first = 18 + 108;
    assert_eq!(corners(&v[first..first + 1]), vec![(-599, 269)]);
    assert!(close(v[first].color[0], 0.24));
    let dragged = first + 6 * 7;
    assert_eq!(corners(&v[dragged..dragged + 1]), vec![(-574, 244)]);
    assert!(close(v[dragged].color[0], 0.6) && close(v[dragged].color[1], 0.9));
}

#[test]
fn panel_without_types() {
    let l = compute_ui_layout(640 * PX, 360 * PX, 0);
    let v = build_ui(&Vec::new(), None, ratio(0, 1), &l, 640 * PX, 360 * PX, 0);
    assert_eq!(v.len(), 18);
}

#[test]
fn panel_encloses_its_parts() {
    for n in [1, 6, 11] {
        let l = compute_ui_layout(640 * PX, 360 * PX, n);
        let mut parts = vec![l.slider_track, l.slider_hit];
        for row in 0..=n {
            for col in 0..=n {
                let cell = grid_cell_rect(l.grid_origin, row, col);
                assert!(cell.y1 < l.slider_hit.y0);
                parts.push(cell);
            }
        }
        for r in parts {
            assert!(l.panel_bg.x0 <= r.x0 && r.x1 <= l.panel_bg.x1);
            assert!(l.panel_bg.y0 <= r.y0 && r.y1 <= l.panel_bg.y1);
        }
    }
}

#[test]
fn panel_fits_up_to_eleven_types() {
    let size = |n: u32| {
        let l = compute_ui_layout(640 * PX, 360 * PX, n);
        let matrix = vec![0; (n * n) as usize];
        build_ui(&matrix, None, ratio(0, 1), &l, 640 * PX, 360 * PX, n).len()
    };
    assert_eq!(size(11), 942);
    assert!(size(11) <= UI_MAX_VERTICES);
    assert!(size(12) > UI_MAX_VERTICES);
}

#[test]
fn chevrons_stay_in_their_cell() {
    let cell = grid_cell_rect((-624 * PX, 316 * PX), 0, 3);
    let mut v = Vec::new();
    push_down_chevron(&mut v, &cell, WHITE, 640 * PX, 360 * PX);
    push_right_chevron(&mut v, &cell, WHITE, 640 * PX, 360 * PX);
    for vertex in v {
        let p = Point {
            x: vertex.clip_pos[0].num as i64,
            y: vertex.clip_pos[1].num as i64,
        };
        assert!(cell.contains(p));
    }
}

#[test]
fn channels_lie_between_the_value_and_its_desaturation() {
    for n in 0..=48 {
        let c = hsv_to_rgb(ratio(n, 48), ratio(3, 4), ratio(4, 5));
        let mut v: Vec<f64> = c.iter().map(|r| r.num as f64 / r.den as f64).collect();
        v.sort_by(|a, b| a.partial_cmp(b).unwrap());
        assert!((v[0] - 0.2).abs() < 1e-9 && (v[2] - 0.8).abs() < 1e-9);
    }
}

#[test]
fn stronger_entries_are_more_colorful() {
    for k in 0..10 {
        let (weak, strong) = (k * WEIGHT_ONE / 10, (k + 1) * WEIGHT_ONE / 10);
        assert!(matrix_value_color(weak)[1].num < matrix_value_color(strong)[1].num);
        assert!(matrix_value_color(-weak)[0].num < matrix_value_color(-strong)[0].num);
    }
}

#[test]
fn slider_is_faster_to_the_right() {
    let l = compute_ui_layout(640 * PX, 360 * PX, 6);
    for x in -640..-400 {
        let (e, f) = (speed_at(&l, x * PX), speed_at(&l, (x + 1) * PX));
        assert_eq!(e.den, f.den);
        assert!(e.num <= f.num);
    }
}

#[test]
fn handle_stops_at_the_ends() {
    let l = compute_ui_layout(640 * PX, 360 * PX, 6);
    assert_eq!(slider_handle(&l, ratio(7, 1)), slider_handle(&l, ratio(1, 1)));
    assert_eq!(slider_handle(&l, ratio(-9, 1)), slider_handle(&l, ratio(-5, 1)));
}
