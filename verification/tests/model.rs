use particle_life::camera::{
    pan_along, pan_step, wrap, zoom_by_keys, zoom_in, zoom_out, CameraKeys, ZOOM_MAX, ZOOM_MIN,
};
use particle_life::grid::{
    buffer_sizes, build_particle_resources, cells_along, compute_access, compute_bindings,
    dispatch_passes, grid_for, matrix_buffer_size, render_access, render_bindings, ui_buffer_size,
    workgroups_for, Access, Buffer, Pass, Stage,
};
use particle_life::model::{FrameInput, Model, Mouse, WindowMode};
use particle_life::params::{initial_params, NUM_PARTICLES};
use particle_life::presets::preset_matrix;
use particle_life::random::{random_matrix, random_particles, resting_particle};
use particle_life::units::{Point, Ratio, PX, WEIGHT_ONE, ZOOM_ONE};

const NO_KEYS: CameraKeys = CameraKeys {
    zoom_in: false,
    zoom_out: false,
    left: false,
    right: false,
    up: false,
    down: false,
};

fn at(x: i64, y: i64) -> Point {
    Point { x: x * PX, y: y * PX }
}

fn mouse(x: i64, y: i64, just_pressed: bool, down: bool, just_released: bool) -> Mouse {
    Mouse { pos: at(x, y), just_pressed, down, just_released }
}

fn idle() -> FrameInput {
    FrameInput {
        pause: false,
        randomize: false,
        cycle: false,
        keys: NO_KEYS,
        dt: 16_666_667,
        mouse: mouse(300, -100, false, false, false),
        window_w: 1280 * PX,
        window_h: 720 * PX,
    }
}

fn with_mouse(m: Mouse) -> FrameInput {
    FrameInput { mouse: m, ..idle() }
}

fn model() -> Model {
    Model::with_matrix(vec![0; 36])
}

#[test]
fn startup_parameters() {
    let p = initial_params();
    assert_eq!((p.half_width, p.half_height), (2048 * PX, 1152 * PX));
    assert_eq!((p.screen_half_w, p.screen_half_h), (640 * PX, 360 * PX));
    assert_eq!((p.grid_cols, p.grid_rows, p.num_cells), (52, 29, 1508));
    assert_eq!(p.zoom, ZOOM_ONE * 5 / 16);
    assert_eq!((p.num_particles, p.num_types, p.max_cell_scan), (130_000, 6, 400));
    assert_eq!(p.dt, Ratio { num: 1, den: 60 });
    assert_eq!(p.max_radius, 80 * PX);
    assert_eq!(p.cell_size, 80 * PX);
    assert_eq!(p.particle_radius, 3 * PX);
    assert_eq!((p.camera_x, p.camera_y), (0, 0));
}

#[test]
fn startup_model() {
    let m = Model::new(&mut rand::thread_rng());
    assert_eq!(m.matrix.len(), 36);
    assert!(m.matrix.iter().all(|w| -WEIGHT_ONE <= *w && *w < WEIGHT_ONE));
    assert!(!m.paused && !m.fullscreen && !m.pending_resize);
    assert_eq!((m.current, m.preset_index, m.ui_vertex_count), (0, 0, 0));
    assert_eq!(m.speed_log2, Ratio { num: 0, den: 1 });
    assert!(m.dragging_cell.is_none() && !m.dragging_speed);
}

#[test]
fn random_matrix_is_spread_over_the_range() {
    let mut rng = rand::thread_rng();
    let m = random_matrix(&mut rng, 30);
    assert_eq!(m.len(), 900);
    assert!(m.iter().all(|w| -WEIGHT_ONE <= *w && *w < WEIGHT_ONE));
    assert!(m.iter().any(|w| *w > WEIGHT_ONE / 2));
    assert!(m.iter().any(|w| *w < -WEIGHT_ONE / 2));
    assert!(m.iter().any(|w| w.abs() < WEIGHT_ONE / 2));
    assert!(random_matrix(&mut rng, 0).is_empty());
}

#[test]
fn random_particles_are_scattered() {
    let mut rng = rand::thread_rng();
    let ps = random_particles(&mut rng, 2000, 6, 2048 * PX, 1152 * PX);
    assert_eq!(ps.len(), 2000);
    let mut seen = [false; 6];
    for p in &ps {
        assert!(-2048 * PX <= p.pos[0] && p.pos[0] < 2048 * PX);
        assert!(-1152 * PX <= p.pos[1] && p.pos[1] < 1152 * PX);
        assert_eq!(p.vel, [0, 0]);
        seen[p.ptype as usize] = true;
    }
    assert_eq!(seen, [true; 6]);
    assert!(ps.iter().any(|p| p.pos[0] > 0) && ps.iter().any(|p| p.pos[0] < 0));
    assert!(ps.iter().any(|p| p.pos[1] > 0) && ps.iter().any(|p| p.pos[1] < 0));
    assert!(random_particles(&mut rng, 0, 0, 0, 0).is_empty());
}

#[test]
fn particle_at_rest() {
    let p = resting_particle(3, -4, 5);
    assert_eq!((p.pos, p.vel, p.ptype), ([3, -4], [0, 0], 5));
}

#[test]
fn cells_round_up() {
    assert_eq!(cells_along(80 * PX), 1);
    assert_eq!(cells_along(80 * PX + 1), 2);
    assert_eq!(cells_along(1), 1);
    assert_eq!(cells_along(0), 0);
    assert_eq!(cells_along(-5), 0);
    let g = grid_for(2048 * PX, 1152 * PX);
    assert_eq!((g.cols, g.rows, g.num_cells), (52, 29, 1508));
}

#[test]
fn buffers_of_the_startup_world() {
    let b = buffer_sizes(130_000, 1508);
    assert_eq!((b.particles, b.cells, b.sorted_indices), (3_120_000, 6_032, 520_000));
    assert_eq!(matrix_buffer_size(6), 144);
    assert_eq!(ui_buffer_size(), 24_576);
}

#[test]
fn resources_of_a_small_world() {
    let r = build_particle_resources(&mut rand::thread_rng(), 100 * PX, 50 * PX, 10, 3);
    assert_eq!((r.grid.cols, r.grid.rows, r.grid.num_cells), (3, 2, 6));
    assert_eq!(r.sizes, buffer_sizes(10, 6));
    assert_eq!(r.particles.len(), 10);
    assert!(r.particles.iter().all(|p| p.ptype < 3 && p.pos[0] < 100 * PX && p.pos[1] < 50 * PX));
}

#[test]
fn bind_groups_swap_the_particle_buffers() {
    let a = compute_bindings(0);
    let b = compute_bindings(1);
    assert_eq!(
        a,
        [
            Buffer::Params,
            Buffer::Matrix,
            Buffer::ParticlesA,
            Buffer::ParticlesB,
            Buffer::CellCounts,
            Buffer::CellOffsets,
            Buffer::SortedIndices,
        ]
    );
    assert_eq!((b[2], b[3]), (Buffer::ParticlesB, Buffer::ParticlesA));
    assert_eq!(render_bindings(0), [Buffer::ParticlesA, Buffer::Params]);
    assert_eq!(render_bindings(1), [Buffer::ParticlesB, Buffer::Params]);
    assert_eq!(compute_access()[..3], [Access::Uniform, Access::ReadOnly, Access::ReadOnly]);
    assert_eq!(compute_access()[3..], [Access::ReadWrite; 4]);
    assert_eq!(render_access(), [Access::ReadOnly, Access::Uniform]);
}

#[test]
fn passes_of_a_frame() {
    let pass = |stage, workgroups| Pass { stage, workgroups };
    assert_eq!(
        dispatch_passes(130_000, 1508),
        [
            pass(Stage::ClearCounts, 24),
            pass(Stage::CountParticles, 2032),
            pass(Stage::PrefixSum, 1),
            pass(Stage::ClearCounts, 24),
            pass(Stage::ScatterParticles, 2032),
            pass(Stage::ComputeForces, 2032),
        ]
    );
    assert_eq!(
        [0, 1, 64, 65].map(workgroups_for),
        [0, 1, 1, 2]
    );
    assert_eq!(Stage::ClearCounts.entry_point(), "clear_counts");
    assert_eq!(Stage::CountParticles.entry_point(), "count_particles");
    assert_eq!(Stage::PrefixSum.entry_point(), "prefix_sum");
    assert_eq!(Stage::ScatterParticles.entry_point(), "scatter_particles");
    assert_eq!(Stage::ComputeForces.entry_point(), "compute_forces");
}

#[test]
fn zoom_rate_and_limits() {
    // An eighth of a second at rate 1.6 is a fifth.
    assert_eq!(zoom_in(ZOOM_ONE, 125_000_000), ZOOM_ONE * 6 / 5);
    assert_eq!(zoom_out(ZOOM_ONE * 6 / 5, 125_000_000), ZOOM_ONE);
    assert_eq!(zoom_in(ZOOM_ONE, 0), ZOOM_ONE);
    assert_eq!(zoom_in(ZOOM_MAX, 1_000_000_000), ZOOM_MAX);
    assert_eq!(zoom_out(ZOOM_MIN, 1_000_000_000), ZOOM_MIN);
    assert_eq!(zoom_in(ZOOM_MIN, u64::MAX), ZOOM_MAX);
    assert_eq!(zoom_out(ZOOM_MAX, u64::MAX), ZOOM_MIN);
    assert_eq!((ZOOM_MIN as f64 / ZOOM_ONE as f64) as f32, 0.28f32);
    assert_eq!(ZOOM_MAX, 8 * ZOOM_ONE);
}

#[test]
fn pan_speed_scales_with_zoom() {
    assert_eq!(pan_step(ZOOM_ONE, 1_000_000_000), 900 * PX as i128);
    assert_eq!(pan_step(2 * ZOOM_ONE, 1_000_000_000), 450 * PX as i128);
    assert_eq!(pan_step(ZOOM_ONE, 0), 0);
    assert!(pan_step(ZOOM_MAX, 1) > 0);
}

#[test]
fn keys_of_an_axis() {
    assert_eq!(pan_along(true, false, 5), 5);
    assert_eq!(pan_along(false, true, 5), -5);
    assert_eq!(pan_along(true, true, 5), 0);
    assert_eq!(pan_along(false, false, 5), 0);
}

#[test]
fn both_zoom_keys_zoom_in_first() {
    let both = CameraKeys { zoom_in: true, zoom_out: true, ..NO_KEYS };
    assert_eq!(zoom_by_keys(ZOOM_ONE, &both, 125_000_000), ZOOM_ONE);
    // At the limit only the way out is left.
    assert_eq!(zoom_by_keys(ZOOM_MAX, &both, 125_000_000), zoom_out(ZOOM_MAX, 125_000_000));
    assert_eq!(zoom_by_keys(ZOOM_MAX, &NO_KEYS, 125_000_000), ZOOM_MAX);
}

#[test]
fn wrap_shifts_by_whole_worlds() {
    let half = 2048 * PX;
    assert_eq!(wrap(0, half), 0);
    assert_eq!(wrap(half as i128, half), -half);
    assert_eq!(wrap(-(half as i128), half), -half);
    assert_eq!(wrap(-(half as i128) - 1, half), half - 1);
    assert_eq!(wrap(half as i128 * 5 + 7, half), -half + 7);
}

#[test]
fn camera_keys_move_the_camera() {
    let mut m = model();
    let keys = CameraKeys { right: true, up: true, ..NO_KEYS };
    m.params.zoom = ZOOM_ONE;
    assert!(m.handle_camera_input(&keys, 1_000_000_000));
    assert_eq!((m.params.camera_x, m.params.camera_y), (900 * PX, 900 * PX));
    assert!(m.handle_camera_input(&keys, 1_000_000_000));
    assert_eq!((m.params.camera_x, m.params.camera_y), (1800 * PX, (1800 - 2304) * PX));
    let back = CameraKeys { left: true, down: true, ..NO_KEYS };
    assert!(m.handle_camera_input(&back, 2_000_000_000));
    assert_eq!((m.params.camera_x, m.params.camera_y), (0, 0));
}

#[test]
fn opposite_keys_cancel() {
    let mut m = model();
    let keys = CameraKeys { left: true, right: true, up: true, down: true, ..NO_KEYS };
    assert!(!m.handle_camera_input(&keys, 1_000_000_000));
    assert!(!m.handle_camera_input(&NO_KEYS, 1_000_000_000));
    assert!(!m.handle_camera_input(&CameraKeys { left: true, ..NO_KEYS }, 0));
    assert_eq!((m.params.camera_x, m.params.camera_y), (0, 0));
}

#[test]
fn zoom_comes_before_pan() {
    let mut m = model();
    m.params.zoom = ZOOM_ONE;
    let keys = CameraKeys { zoom_in: true, right: true, ..NO_KEYS };
    assert!(m.handle_camera_input(&keys, 125_000_000));
    assert_eq!(m.params.zoom, ZOOM_ONE * 6 / 5);
    assert_eq!(m.params.camera_x, (900 * PX / 8) * 5 / 6);
}

#[test]
fn zoom_key_at_the_limit_changes_nothing() {
    let mut m = model();
    let closer = CameraKeys { zoom_in: true, ..NO_KEYS };
    let away = CameraKeys { zoom_out: true, ..NO_KEYS };
    m.params.zoom = ZOOM_MAX;
    let before = m.params;
    assert!(!m.handle_camera_input(&closer, 16_666_667));
    assert_eq!(m.params, before);
    assert!(!m.step(&FrameInput { keys: closer, ..idle() }, Vec::new()).upload_params);
    assert!(m.step(&FrameInput { keys: away, ..idle() }, Vec::new()).upload_params);
    assert!(m.params.zoom < ZOOM_MAX);
    m.params.zoom = ZOOM_MIN;
    assert!(!m.handle_camera_input(&away, 16_666_667));
    assert_eq!(m.params.zoom, ZOOM_MIN);
    assert!(m.handle_camera_input(&closer, 16_666_667));
    assert!(!m.handle_camera_input(&closer, 0));
    // A pan is still reported at the limit.
    m.params.zoom = ZOOM_MAX;
    assert!(m.handle_camera_input(&CameraKeys { left: true, ..closer }, 16_666_667));
}

#[test]
fn pan_by_a_whole_world_changes_nothing() {
    let mut m = model();
    m.params.zoom = ZOOM_ONE;
    // A second of panning, in a world of 900 pixels.
    m.params.half_width = 450 * PX;
    let keys = CameraKeys { right: true, ..NO_KEYS };
    assert!(!m.handle_camera_input(&keys, 1_000_000_000));
    assert_eq!((m.params.camera_x, m.params.camera_y), (0, 0));
    assert!(m.handle_camera_input(&keys, 1_500_000_000));
    assert_eq!(m.params.camera_x, -450 * PX);
}

#[test]
fn held_slider_is_uploaded_in_every_frame() {
    let mut m = model();
    m.step(&with_mouse(mouse(-524, 339, true, true, false)), Vec::new());
    let before = m.params;
    let out = m.step(&with_mouse(mouse(-524, 339, false, true, false)), Vec::new());
    assert!(out.upload_params);
    assert_eq!(m.params, before);
}

#[test]
fn fullscreen_key_asks_for_a_mode() {
    let mut m = model();
    assert_eq!(m.handle_fullscreen(false), None);
    assert!(!m.pending_resize);
    assert_eq!(m.handle_fullscreen(true), Some(WindowMode::BorderlessFullscreen));
    assert!(m.fullscreen && m.pending_resize);
    assert_eq!(m.handle_fullscreen(true), Some(WindowMode::Windowed));
    assert!(!m.fullscreen && m.pending_resize);
}

#[test]
fn resize_waits_for_the_window() {
    let mut m = model();
    assert!(!m.handle_resize(1920 * PX, 1080 * PX));
    assert_eq!(m.params.screen_half_w, 640 * PX);
    m.handle_fullscreen(true);
    assert!(!m.handle_resize(1280 * PX, 720 * PX));
    // Half a pixel in a half-extent is not enough.
    assert!(!m.handle_resize(1281 * PX, 720 * PX));
    assert!(m.pending_resize);
    assert!(m.handle_resize(1920 * PX, 1080 * PX));
    assert_eq!((m.params.screen_half_w, m.params.screen_half_h), (960 * PX, 540 * PX));
    assert!(!m.pending_resize);
    assert!(!m.handle_resize(800 * PX, 600 * PX));
}

#[test]
fn pause_twice() {
    let mut m = model();
    let key = FrameInput { pause: true, ..idle() };
    let out = m.step(&key, Vec::new());
    assert!(m.paused && out.dispatch.is_none());
    assert_eq!(out.ui_vertices.len(), 342);
    assert_eq!(m.current, 0);
    let out = m.step(&idle(), Vec::new());
    assert!(m.paused && out.dispatch.is_none());
    let out = m.step(&key, Vec::new());
    assert!(!m.paused && out.dispatch.is_some());
}

#[test]
fn frames_swap_the_buffers() {
    let mut m = model();
    for frame in 0..4 {
        let group = m.current;
        assert_eq!(group, frame % 2);
        let d = m.step(&idle(), Vec::new()).dispatch.unwrap();
        assert_eq!(d.bind_group, group);
        assert_eq!(d.passes, dispatch_passes(130_000, 1508));
        let written = compute_bindings(group)[3];
        assert_eq!(render_bindings(m.render().bind_group)[0], written);
        assert_eq!(compute_bindings(m.current)[2], written);
    }
}

#[test]
fn idle_frame_uploads_nothing() {
    let mut m = model();
    let out = m.step(&idle(), Vec::new());
    assert!(!out.upload_params && !out.upload_matrix);
    assert_eq!(m.ui_vertex_count, 342);
    assert_eq!(m.matrix, vec![0; 36]);
}

#[test]
fn render_draws_the_panel_once_built() {
    let mut m = model();
    let plan = m.render();
    assert_eq!((plan.bind_group, plan.vertices, plan.instances), (0, 6, NUM_PARTICLES));
    assert_eq!(plan.ui_vertices, None);
    m.step(&idle(), Vec::new());
    let plan = m.render();
    assert_eq!((plan.bind_group, plan.ui_vertices), (1, Some(342)));
}

#[test]
fn cycle_key_walks_the_presets() {
    let mut m = model();
    let key = FrameInput { cycle: true, ..idle() };
    for press in 1..=8 {
        let out = m.step(&key, Vec::new());
        assert!(out.upload_matrix && !out.upload_params);
        assert_eq!(m.preset_index, press % 8);
        assert_eq!(m.matrix, preset_matrix(press, 6));
    }
    assert_eq!(m.preset_index, 0);
}

#[test]
fn randomize_key_takes_the_random_matrix() {
    let mut m = model();
    let key = FrameInput { randomize: true, ..idle() };
    let out = m.step(&key, vec![7; 36]);
    assert!(out.upload_matrix);
    assert_eq!(m.matrix, vec![7; 36]);
    // The preset key wins over it.
    m.step(&FrameInput { cycle: true, ..key }, vec![9; 36]);
    assert_eq!(m.matrix, preset_matrix(1, 6));
}

#[test]
fn update_draws_a_random_matrix() {
    let mut m = model();
    let mut rng = rand::thread_rng();
    let out = m.update(&FrameInput { randomize: true, ..idle() }, &mut rng);
    assert!(out.upload_matrix);
    assert_eq!(m.matrix.len(), 36);
    assert!(m.matrix.iter().all(|w| -WEIGHT_ONE <= *w && *w < WEIGHT_ONE));
    assert!(m.matrix.iter().any(|w| *w != m.matrix[0]));
    let before = m.matrix.clone();
    let out = m.update(&idle(), &mut rng);
    assert!(!out.upload_matrix);
    assert_eq!(m.matrix, before);
}

#[test]
fn slider_drag_sets_the_speed() {
    let mut m = model();
    let out = m.step(&with_mouse(mouse(-524, 339, true, true, false)), Vec::new());
    assert!(m.dragging_speed && out.upload_params && !out.upload_matrix);
    assert_eq!(m.speed_log2.num, -2 * m.speed_log2.den);
    assert_eq!(m.params.force_log2, m.speed_log2);
    // It follows the mouse off the slider, too.
    m.step(&with_mouse(mouse(600, -300, false, true, false)), Vec::new());
    assert_eq!(m.speed_log2.num, m.speed_log2.den);
    let out = m.step(&with_mouse(mouse(0, 0, false, false, true)), Vec::new());
    assert!(!m.dragging_speed && !out.upload_params);
    assert_eq!(m.speed_log2.num, m.speed_log2.den);
    assert_eq!(m.params.force_log2, m.speed_log2);
}

#[test]
fn press_takes_the_entry_under_the_mouse() {
    let mut m = model();
    m.matrix[8] = WEIGHT_ONE / 4;
    // Second row, third column of the matrix.
    let out = m.step(&with_mouse(mouse(-540, 255, true, true, false)), Vec::new());
    assert_eq!(m.dragging_cell, Some(8));
    assert_eq!(m.drag_start_value, WEIGHT_ONE / 4);
    assert_eq!(m.drag_start_mouse_y, 255 * PX);
    assert!(!out.upload_matrix && !out.upload_params);
}

#[test]
fn drag_is_absolute() {
    let mut m = model();
    m.step(&with_mouse(mouse(-590, 280, true, true, false)), Vec::new());
    assert_eq!(m.dragging_cell, Some(0));
    // 30 pixels are a quarter of the range, half a weight.
    let out = m.step(&with_mouse(mouse(-590, 310, false, true, false)), Vec::new());
    assert!(out.upload_matrix);
    assert_eq!(m.matrix[0], WEIGHT_ONE / 2);
    m.step(&with_mouse(mouse(-590, -200, false, true, false)), Vec::new());
    assert_eq!(m.matrix[0], -WEIGHT_ONE);
    m.step(&with_mouse(mouse(100, 250, false, true, false)), Vec::new());
    assert_eq!(m.matrix[0], -WEIGHT_ONE / 2);
    assert!(m.matrix[1..].iter().all(|w| *w == 0));
    // Held still, it changes nothing.
    let out = m.step(&with_mouse(mouse(100, 250, false, true, false)), Vec::new());
    assert!(!out.upload_matrix);
    // Released, it stays.
    m.step(&with_mouse(mouse(100, 250, false, false, true)), Vec::new());
    assert_eq!(m.dragging_cell, None);
    m.step(&with_mouse(mouse(100, 300, false, true, false)), Vec::new());
    assert_eq!(m.matrix[0], -WEIGHT_ONE / 2);
}

#[test]
fn drag_spans_the_range_in_120_pixels() {
    let mut m = Model::with_matrix(vec![-WEIGHT_ONE; 36]);
    m.step(&with_mouse(mouse(-590, 280, true, true, false)), Vec::new());
    m.step(&with_mouse(mouse(-590, 400, false, true, false)), Vec::new());
    assert_eq!(m.matrix[0], WEIGHT_ONE);
}

#[test]
fn headers_and_gaps_are_inert() {
    let mut m = model();
    for (x, y) in [(-613, 305), (-590, 305), (-613, 280), (-576, 280), (-590, 268), (0, 0)] {
        m.step(&with_mouse(mouse(x, y, true, true, false)), Vec::new());
        assert_eq!(m.dragging_cell, None);
        assert!(!m.dragging_speed);
    }
}

#[test]
fn press_and_release_in_one_frame() {
    let mut m = model();
    let out = m.step(&with_mouse(mouse(-524, 339, true, true, true)), Vec::new());
    assert!(out.upload_params && !m.dragging_speed);
    assert_eq!(m.speed_log2.num, -2 * m.speed_log2.den);
}

#[test]
fn panel_follows_the_screen() {
    let mut m = model();
    m.handle_fullscreen(true);
    let wide = FrameInput { window_w: 1920 * PX, window_h: 1080 * PX, ..idle() };
    let out = m.step(&wide, Vec::new());
    assert!(out.upload_params);
    // The background's left edge is 6 pixels in from the edge of the screen.
    assert_eq!(out.ui_vertices[0].clip_pos[0].num, (-954 * PX) as i128);
    assert_eq!(out.ui_vertices[0].clip_pos[0].den, (960 * PX) as i128);
    assert_eq!(m.params.half_width, 2048 * PX);
    assert_eq!(m.params.num_particles, NUM_PARTICLES);
}

#[test]
fn bindings_do_not_alias() {
    for group in 0..2 {
        let b = compute_bindings(group);
        for i in 0..7 {
            for j in 0..i {
                assert_ne!(b[i], b[j]);
            }
        }
    }
}

#[test]
fn close_particles_are_in_adjacent_cells() {
    let cell = |x: i64| (x + 2048 * PX) / (80 * PX);
    for x in (-2048..1968).step_by(7) {
        assert!(cell((x + 80) * PX) - cell(x * PX) <= 1);
        assert!(cell(x * PX) < cells_along(4096 * PX) as i64);
    }
}

#[test]
fn camera_does_not_move_the_panel() {
    let mut m = model();
    let before = m.step(&idle(), Vec::new()).ui_vertices;
    let keys = CameraKeys { zoom_in: true, left: true, up: true, ..NO_KEYS };
    let out = m.step(&FrameInput { keys, ..idle() }, Vec::new());
    assert!(out.upload_params && m.params.camera_x != 0);
    assert_eq!(before.len(), out.ui_vertices.len());
    for (a, b) in before.iter().zip(&out.ui_vertices) {
        assert_eq!((a.clip_pos, a.color), (b.clip_pos, b.color));
    }
}

#[test]
fn held_keys_keep_zoom_and_camera_in_range() {
    let mut m = model();
    for frame in 0..500 {
        let keys = CameraKeys {
            zoom_in: frame < 250,
            zoom_out: frame >= 250,
            left: true,
            down: true,
            ..NO_KEYS
        };
        let zoom = m.params.zoom;
        m.handle_camera_input(&keys, 50_000_000);
        let p = &m.params;
        assert!(ZOOM_MIN <= p.zoom && p.zoom <= ZOOM_MAX);
        assert!(if frame < 250 { p.zoom >= zoom } else { p.zoom <= zoom });
        assert!(-p.half_width <= p.camera_x && p.camera_x < p.half_width);
        assert!(-p.half_height <= p.camera_y && p.camera_y < p.half_height);
    }
    assert_eq!(m.params.zoom, ZOOM_MIN);
}
