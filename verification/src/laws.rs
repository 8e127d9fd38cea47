//! What holds of the program over several operations: pausing, dragging, presets,
//! fullscreen and the two particle buffers.

use crate::camera::{
    law_axes_are_independent, law_axis_keys, law_zoom_direction, law_zoom_is_bounded, pan_length,
    zoom_after, CameraKeys, ZOOM_MAX, ZOOM_MIN,
};
use crate::grid::{
    compute_binding_list, law_ping_pong, pass_list, render_binding_list, PARTICLES_IN, PARTICLES_OUT,
};
use crate::panel::{law_panel_fits, panel_vertices, slider_speed};
use crate::model::{
    after_frame, camera_moved, dispatch_of, dragged_value, entry_at, fullscreen_toggled, handled,
    law_input_keeps_simulation, layout_of, lemma_entry_is_unique, matrix_dirty, moused, on_entry,
    panel_of, params_dirty, pressed, resize_due, resized, sliding, startup_state, viewed, FrameInput,
    ModelState, Mouse, DRAG_GAIN,
};
use crate::params::{startup_params, Params};
use crate::presets::preset_table;
use crate::ui::{cell_rect, law_cells_are_disjoint, ui_layout, UiLayout};
use crate::units::{lemma_entry_position, Point, COORD_MAX, PX, WEIGHT_ONE};
use vstd::prelude::*;

verus! {

/// The pause key flips between paused and running, and nothing else does.
pub proof fn law_pause_toggles(s: ModelState, i: FrameInput, random: Seq<i64>)
    ensures
        after_frame(s, i, random).paused == (s.paused != i.pause),
{
    law_input_keeps_simulation(s, i);
}

/// Pressing the pause key in two frames leaves the program as paused as it was.
pub proof fn law_pause_twice(
    s: ModelState,
    i: FrameInput,
    j: FrameInput,
    random: Seq<i64>,
    other: Seq<i64>,
)
    requires
        i.pause,
        j.pause,
    ensures
        after_frame(after_frame(s, i, random), j, other).paused == s.paused,
{
    law_pause_toggles(s, i, random);
    law_pause_toggles(after_frame(s, i, random), j, other);
}

/// While paused, no simulation step runs and the same particles stay on the screen.
pub proof fn law_paused_frame(s: ModelState, i: FrameInput, random: Seq<i64>)
    requires
        s.paused != i.pause,
    ensures
        dispatch_of(s, after_frame(s, i, random)) is None,
        after_frame(s, i, random).current == s.current,
{
    law_input_keeps_simulation(s, i);
}

/// While running, each frame draws the particles that its simulation step has just
/// written, and the next step starts from them.
pub proof fn law_drawn_is_written(s: ModelState, i: FrameInput, random: Seq<i64>)
    requires
        s.current < 2,
        s.paused == i.pause,
    ensures
        ({
            let t = after_frame(s, i, random);
            let written = compute_binding_list(s.current as int)[PARTICLES_OUT as int];
            &&& t.current < 2
            &&& dispatch_of(s, t) is Some
            &&& dispatch_of(s, t)->0.bind_group == s.current
            &&& render_binding_list(t.current as int)[0] == written
            &&& compute_binding_list(t.current as int)[PARTICLES_IN as int] == written
        }),
{
    law_input_keeps_simulation(s, i);
    law_ping_pong(s.current as int);
}

/// No frame changes the world, the grid, the number of particles or types, or the
/// physics.
pub proof fn law_frame_keeps_simulation(s: ModelState, i: FrameInput, random: Seq<i64>)
    ensures
        after_frame(s, i, random).params.same_simulation(s.params),
{
    law_input_keeps_simulation(s, i);
}

/// What a frame changes is uploaded in that frame, the parameters as well as the matrix.
/// Parameters that stay as they are get uploaded only while the slider is held.
pub proof fn law_changes_are_uploaded(s: ModelState, i: FrameInput, random: Seq<i64>)
    ensures
        ({
            let t = after_frame(s, i, random);
            let v = viewed(s, i);
            &&& t.params != s.params ==> params_dirty(s, i)
            &&& t.matrix != s.matrix ==> matrix_dirty(s, i)
            &&& params_dirty(s, i) && t.params == s.params ==> sliding(
                pressed(v, layout_of(v.params), i.mouse),
                i.mouse,
            )
        }),
{
    law_input_keeps_simulation(s, i);
}

/// A zoom key that is held at the limit of the zoom changes no parameter.
pub proof fn law_zoom_limit_changes_nothing(p: Params, keys: CameraKeys, dt: int)
    requires
        0 <= dt,
        !keys.left && !keys.right && !keys.up && !keys.down,
        p.zoom == ZOOM_MAX && !keys.zoom_out || p.zoom == ZOOM_MIN && !keys.zoom_in,
    ensures
        camera_moved(p, keys, dt) == p,
{
    law_zoom_direction(p.zoom as int, dt);
}

/// The parameters are uploaded exactly if the frame changed them or the slider is held:
/// the button is down, and the slider was held before or has just been pressed. The matrix
/// is uploaded exactly if a key replaced it or the frame changed it.
pub proof fn law_uploads(s: ModelState, i: FrameInput, random: Seq<i64>)
    ensures
        ({
            let t = after_frame(s, i, random);
            let l = ui_layout(
                t.params.screen_half_w as int,
                t.params.screen_half_h as int,
                t.params.num_types as int,
            );
            let held = i.mouse.down && (s.dragging_speed || i.mouse.just_pressed && l.slider_hit.holds(
                i.mouse.pos,
            ));
            &&& params_dirty(s, i) <==> t.params != s.params || held
            &&& matrix_dirty(s, i) <==> i.randomize || i.cycle || t.matrix != s.matrix
            &&& params_dirty(s, i) ==> t.params.force_log2 == t.speed_log2
            &&& !params_dirty(s, i) ==> t.params == s.params && t.speed_log2 == s.speed_log2
        }),
{
    law_input_keeps_simulation(s, i);
}

/// A frame follows the window first and the camera keys then, at the size that the window
/// has got; nothing else but the speed reaches the parameters.
pub proof fn law_frame_moves_the_view(s: ModelState, i: FrameInput, random: Seq<i64>)
    ensures
        ({
            let t = after_frame(s, i, random);
            let w = resized(s, i.window_w as int, i.window_h as int);
            &&& t.params == (Params {
                force_log2: t.params.force_log2,
                ..camera_moved(w.params, i.keys, i.dt as int)
            })
            &&& t.pending_resize == w.pending_resize
            &&& t.fullscreen == s.fullscreen
        }),
{
    law_input_keeps_simulation(s, i);
}

/// The mouse acts on the panel as it is laid out on the screen of the frame. What it does
/// to the slider stays; what it does to the matrix stays unless a key replaces the matrix.
pub proof fn law_frame_takes_the_mouse(s: ModelState, i: FrameInput, random: Seq<i64>)
    ensures
        ({
            let t = after_frame(s, i, random);
            let p = camera_moved(
                resized(s, i.window_w as int, i.window_h as int).params,
                i.keys,
                i.dt as int,
            );
            let l = ui_layout(p.screen_half_w as int, p.screen_half_h as int, p.num_types as int);
            let m = moused(ModelState { params: p, ..s }, l, i.mouse);
            &&& t.speed_log2 == m.speed_log2
            &&& t.dragging_speed == m.dragging_speed
            &&& t.dragging_cell == m.dragging_cell
            &&& t.drag_start_value == m.drag_start_value
            &&& t.drag_start_mouse_y == m.drag_start_mouse_y
            &&& !i.cycle && !i.randomize ==> t.matrix == m.matrix
            &&& !i.cycle ==> t.preset_index == s.preset_index
        }),
{
    law_input_keeps_simulation(s, i);
}

/// While running, a frame runs the passes for all particles and all cells, and the two
/// particle buffers swap.
pub proof fn law_running_frame(s: ModelState, i: FrameInput, random: Seq<i64>)
    requires
        s.current < 2,
        s.paused == i.pause,
    ensures
        ({
            let t = after_frame(s, i, random);
            &&& t.current == 1 - s.current
            &&& dispatch_of(s, t) is Some
            &&& dispatch_of(s, t)->0.passes == pass_list(
                s.params.num_particles as int,
                s.params.num_cells as int,
            )
        }),
{
    law_input_keeps_simulation(s, i);
}

/// Every frame counts the vertices of the panel: 18, and 18 for each type, and 6 for each
/// entry of the matrix.
pub proof fn law_frame_counts_vertices(s: ModelState, i: FrameInput, random: Seq<i64>)
    requires
        s.wf(),
    ensures
        ({
            let n = s.params.num_types;
            after_frame(s, i, random).ui_vertex_count == 18 + 18 * n + 6 * (n * n)
        }),
{
    law_input_keeps_simulation(s, i);
    let n = s.params.num_types;
    law_panel_fits(n as int);
    assert(0 <= n * n <= 121) by (nonlinear_arith)
        requires
            0 <= n <= 11,
    ;
}

/// The panel shows the state: its matrix, the entry that is held and its speed, laid out
/// for its screen.
pub proof fn law_panel_shows_the_state(s: ModelState)
    ensures
        panel_of(s) == panel_vertices(
            ui_layout(
                s.params.screen_half_w as int,
                s.params.screen_half_h as int,
                s.params.num_types as int,
            ),
            s.matrix,
            s.dragging_cell,
            s.speed_log2,
            s.params.num_types as int,
            s.params.screen_half_w,
            s.params.screen_half_h,
        ),
{
}

/// The program starts running, in a window, with nothing held, at normal speed, with the
/// first preset still ahead and the first particle buffer to read from.
pub proof fn law_startup_state(matrix: Seq<i64>)
    ensures
        ({
            let s = startup_state(matrix);
            &&& s.matrix == matrix && s.params == startup_params()
            &&& !s.paused && !s.fullscreen && !s.pending_resize
            &&& !s.dragging_speed && s.dragging_cell is None
            &&& s.speed_log2.equals(0, 1) && s.speed_log2.den > 0
            &&& s.current == 0 && s.preset_index == 0 && s.ui_vertex_count == 0
        }),
{
}

/// Each arrow key moves the camera along its own axis, whatever the other keys do: right
/// and up forwards, left and down backwards, by the length of a step at the new zoom, up
/// to whole worlds. The camera stays in the world, and the keys change nothing but zoom
/// and camera.
pub proof fn law_arrow_keys_move_their_axis(p: Params, keys: CameraKeys, dt: int)
    requires
        p.wf(),
        0 <= dt,
    ensures
        ({
            let q = camera_moved(p, keys, dt);
            let length = pan_length(q.zoom as int, dt);
            let right = if keys.right { length } else { 0 };
            let left = if keys.left { length } else { 0 };
            let up = if keys.up { length } else { 0 };
            let down = if keys.down { length } else { 0 };
            &&& (q.camera_x - (p.camera_x + right - left)) % (2 * p.half_width) == 0
            &&& (q.camera_y - (p.camera_y + up - down)) % (2 * p.half_height) == 0
            &&& -p.half_width <= q.camera_x < p.half_width
            &&& -p.half_height <= q.camera_y < p.half_height
            &&& q.zoom == zoom_after(p.zoom as int, keys, dt)
            &&& q == (Params { zoom: q.zoom, camera_x: q.camera_x, camera_y: q.camera_y, ..p })
        }),
{
    law_zoom_is_bounded(p.zoom as int, keys, dt);
    let length = pan_length(zoom_after(p.zoom as int, keys, dt), dt);
    law_axis_keys(length);
    let step = crate::model::camera_step(p, keys, dt);
    law_axes_are_independent(
        (p.camera_x as int, p.camera_y as int),
        step,
        (p.half_width as int, p.half_height as int),
    );
}

/// The panel is locked to the screen: moving or zooming the camera draws the same panel.
pub proof fn law_panel_is_screen_locked(s: ModelState, keys: CameraKeys, dt: int)
    ensures
        panel_of(ModelState { params: camera_moved(s.params, keys, dt), ..s }) == panel_of(s),
{
}

/// A mouse that is neither pressed nor released in the frame.
pub open spec fn steady(m: Mouse) -> bool {
    !m.just_pressed && !m.just_released
}

/// A drag is absolute: where the mouse was in between does not matter for the value of
/// the entry in the end.
pub proof fn law_drag_is_absolute(s: ModelState, l: UiLayout, between: Mouse, last: Mouse)
    requires
        s.wf(),
        steady(between),
        steady(last),
        last.down,
    ensures
        s.dragging_cell is Some ==> moused(moused(s, l, between), l, last).matrix == moused(
            s,
            l,
            last,
        ).matrix,
{
    if let Some(k) = s.dragging_cell {
        assert(moused(moused(s, l, between), l, last).matrix =~= moused(s, l, last).matrix);
    }
}

/// Dragging up attracts and dragging down repels: the higher the mouse, the larger the
/// value, until it reaches -1 or 1.
pub proof fn law_drag_direction(s: ModelState, y: int, z: int)
    requires
        -WEIGHT_ONE <= s.drag_start_value <= WEIGHT_ONE,
        y <= z,
    ensures
        -WEIGHT_ONE <= dragged_value(s, y) <= dragged_value(s, z) <= WEIGHT_ONE,
        dragged_value(s, s.drag_start_mouse_y as int) == s.drag_start_value,
{
}

/// A drag adds two full weights over 120 pixels, in proportion to the way of the mouse,
/// until the value reaches -1 or 1.
pub proof fn law_drag_is_linear(s: ModelState, y: int)
    requires
        -WEIGHT_ONE <= s.drag_start_value <= WEIGHT_ONE,
    ensures
        ({
            let v = dragged_value(s, y);
            let added = 2 * WEIGHT_ONE * (y - s.drag_start_mouse_y);
            &&& -WEIGHT_ONE < v < WEIGHT_ONE ==> (v - s.drag_start_value) * (120 * PX) == added
            &&& v == WEIGHT_ONE ==> (v - s.drag_start_value) * (120 * PX) <= added
            &&& v == -WEIGHT_ONE ==> (v - s.drag_start_value) * (120 * PX) >= added
            &&& -WEIGHT_ONE <= v <= WEIGHT_ONE
        }),
{
    let v = dragged_value(s, y);
    let way = y - s.drag_start_mouse_y;
    let grown = v - s.drag_start_value;
    assert(grown * (120 * PX) == 2_013_265_920 * grown) by (nonlinear_arith)
        requires
            PX == 16_777_216,
    ;
    assert(2 * WEIGHT_ONE * way == 2_013_265_920 * (5 * way)) by (nonlinear_arith)
        requires
            WEIGHT_ONE == 5_033_164_800,
    ;
}

/// While the button is down, the held entry has the value of the drag, unless the press of
/// this frame takes hold of an entry anew; with the button up, the matrix is left alone.
pub proof fn law_held_entry_follows_mouse(s: ModelState, l: UiLayout, m: Mouse, k: usize)
    requires
        s.wf(),
        !m.just_pressed || l.slider_hit.holds(m.pos) || entry_at(
            l,
            s.params.num_types as int,
            m.pos,
        ) is None,
    ensures
        m.down && s.dragging_cell == Some(k) ==> moused(s, l, m).matrix[k as int] == dragged_value(
            s,
            m.pos.y as int,
        ),
        !m.down ==> moused(s, l, m).matrix == s.matrix,
        s.dragging_cell is None ==> moused(s, l, m).matrix == s.matrix,
{
}

/// With the button up, the mouse changes neither the matrix nor the speed.
pub proof fn law_button_up_changes_no_value(s: ModelState, l: UiLayout, m: Mouse)
    requires
        !m.down,
    ensures
        moused(s, l, m).matrix == s.matrix,
        moused(s, l, m).speed_log2 == s.speed_log2,
{
}

/// The speed is that of the slider under the mouse while the slider is held, and otherwise
/// it stays as it is. The slider is held while the button is down, from a press in its
/// reacting area on.
pub proof fn law_held_slider_follows_mouse(s: ModelState, l: UiLayout, m: Mouse)
    ensures
        ({
            let held = m.down && (s.dragging_speed || m.just_pressed && l.slider_hit.holds(m.pos));
            &&& sliding(pressed(s, l, m), m) == held
            &&& held ==> moused(s, l, m).speed_log2 == slider_speed(l, m.pos.x as int)
            &&& !held ==> moused(s, l, m).speed_log2 == s.speed_log2
        }),
{
}

/// A press in the slider's reacting area takes hold of the slider and of no entry.
pub proof fn law_press_takes_the_slider(s: ModelState, l: UiLayout, m: Mouse)
    requires
        m.just_pressed,
        !m.just_released,
        l.slider_hit.holds(m.pos),
    ensures
        moused(s, l, m).dragging_speed,
        moused(s, l, m).dragging_cell == s.dragging_cell,
        moused(s, l, m).drag_start_value == s.drag_start_value,
        moused(s, l, m).drag_start_mouse_y == s.drag_start_mouse_y,
{
}

/// A press beside the slider and beside the entries is as good as no press.
pub proof fn law_press_on_nothing(s: ModelState, l: UiLayout, m: Mouse)
    requires
        !l.slider_hit.holds(m.pos),
        forall|k: int| !on_entry(l, s.params.num_types as int, m.pos, k),
    ensures
        moused(s, l, m) == moused(s, l, Mouse { just_pressed: false, ..m }),
{
}

/// What is held stays held, with the start of its drag, until the button is released.
pub proof fn law_hold_lasts(s: ModelState, l: UiLayout, m: Mouse)
    requires
        steady(m),
    ensures
        moused(s, l, m).dragging_speed == s.dragging_speed,
        moused(s, l, m).dragging_cell == s.dragging_cell,
        moused(s, l, m).drag_start_value == s.drag_start_value,
        moused(s, l, m).drag_start_mouse_y == s.drag_start_mouse_y,
{
}

/// The mouse reaches the matrix, the speed and what is held, and nothing else.
pub proof fn law_mouse_keeps_the_rest(s: ModelState, l: UiLayout, m: Mouse)
    ensures
        ({
            let t = moused(s, l, m);
            &&& t.params == s.params && t.current == s.current && t.paused == s.paused
            &&& t.preset_index == s.preset_index && t.ui_vertex_count == s.ui_vertex_count
            &&& t.fullscreen == s.fullscreen && t.pending_resize == s.pending_resize
        }),
{
}

/// The entry for the pull of the row's type towards the column's type is under the mouse
/// exactly if the mouse is in the 22-pixel square that starts 25 pixels to the right for
/// each column and 25 pixels down for each row, after the headers.
pub proof fn law_entry_is_in_its_row_and_column(l: UiLayout, n: int, p: Point, row: int, col: int)
    requires
        l.wf(),
        0 <= row < n,
        0 <= col < n,
        n < u32::MAX,
    ensures
        ({
            let x = p.x - (l.grid_origin.0 + 25 * (col + 1) * PX);
            let y = (l.grid_origin.1 - 25 * (row + 1) * PX) - p.y;
            on_entry(l, n, p, row * n + col) <==> 0 <= x <= 22 * PX && 0 <= y <= 22 * PX
        }),
{
    let k = row * n + col;
    assert(0 <= k < n * n) by (nonlinear_arith)
        requires
            k == row * n + col,
            0 <= row < n,
            0 <= col < n,
    ;
    assert(k == n * row + col) by (nonlinear_arith)
        requires
            k == row * n + col,
    ;
    vstd::arithmetic::div_mod::lemma_fundamental_div_mod_converse(k, n, row, col);
}

/// An entry is found only if its cell holds the point, and none is found only if no cell
/// does.
pub proof fn law_found_entry_holds_the_point(l: UiLayout, n: int, p: Point, k: int)
    ensures
        entry_at(l, n, p) matches Some(found) ==> 0 <= found < n * n && on_entry(l, n, p, found),
        entry_at(l, n, p) is None ==> !on_entry(l, n, p, k),
{
}

/// A drag over 120 pixels crosses the whole range: it reaches 1 upwards, or -1
/// downwards, from any value.
pub proof fn law_drag_range(s: ModelState)
    requires
        -WEIGHT_ONE <= s.drag_start_value <= WEIGHT_ONE,
    ensures
        DRAG_GAIN * (120 * PX) == 2 * WEIGHT_ONE,
        dragged_value(s, s.drag_start_mouse_y + 120 * PX) == WEIGHT_ONE,
        dragged_value(s, s.drag_start_mouse_y - 120 * PX) == -WEIGHT_ONE,
{
}

/// The cell that holds a point is found, whichever it is.
pub proof fn law_press_finds_entry(l: UiLayout, n: int, p: Point, k: int)
    requires
        l.wf(),
        0 <= n < u32::MAX,
        on_entry(l, n, p, k),
    ensures
        entry_at(l, n, p) == Some(k),
{
    let c = choose|j: int| on_entry(l, n, p, j);
    lemma_entry_is_unique(l, n, p, c, k);
}

/// The header swatches are not entries of the matrix: a press on one takes hold of
/// nothing.
pub proof fn law_headers_are_inert(l: UiLayout, n: int, p: Point, row: int, col: int)
    requires
        l.wf(),
        0 <= n < u32::MAX,
        0 <= row <= n,
        0 <= col <= n,
        row == 0 || col == 0,
        cell_rect(l.grid_origin, row, col).holds(p),
    ensures
        entry_at(l, n, p) is None,
{
    if exists|k: int| on_entry(l, n, p, k) {
        let k = choose|k: int| on_entry(l, n, p, k);
        lemma_entry_position(k, n);
        law_cells_are_disjoint(l.grid_origin, row, col, k / n + 1, k % n + 1, p);
    }
}

/// A press on a matrix entry takes hold of it and, until the mouse moves, leaves its
/// value as it is.
pub proof fn law_press_keeps_value(s: ModelState, l: UiLayout, m: Mouse, k: int)
    requires
        s.wf(),
        l.wf(),
        m.just_pressed,
        m.down,
        !m.just_released,
        !l.slider_hit.holds(m.pos),
        on_entry(l, s.params.num_types as int, m.pos, k),
    ensures
        moused(s, l, m).dragging_cell == Some(k as usize),
        moused(s, l, m).drag_start_value == s.matrix[k],
        moused(s, l, m).drag_start_mouse_y == m.pos.y,
        moused(s, l, m).dragging_speed == s.dragging_speed,
        moused(s, l, m).matrix == s.matrix,
{
    law_press_finds_entry(l, s.params.num_types as int, m.pos, k);
    assert(moused(s, l, m).matrix =~= s.matrix);
}

/// A press on a matrix entry changes no value, even if the button is released in the same
/// frame.
pub proof fn law_press_changes_no_value(s: ModelState, l: UiLayout, m: Mouse, k: int)
    requires
        s.wf(),
        l.wf(),
        m.just_pressed,
        !l.slider_hit.holds(m.pos),
        on_entry(l, s.params.num_types as int, m.pos, k),
    ensures
        moused(s, l, m).matrix == s.matrix,
{
    law_press_finds_entry(l, s.params.num_types as int, m.pos, k);
    assert(moused(s, l, m).matrix =~= s.matrix);
}

/// A release lets go of the slider and of the matrix.
pub proof fn law_release_lets_go(s: ModelState, l: UiLayout, m: Mouse)
    requires
        m.just_released,
    ensures
        !moused(s, l, m).dragging_speed,
        moused(s, l, m).dragging_cell is None,
{
}

/// The mouse changes at most the matrix entry that it holds, and nothing while the
/// button is up.
pub proof fn law_mouse_changes_one_entry(s: ModelState, l: UiLayout, m: Mouse, j: int)
    requires
        s.wf(),
        0 <= j < s.matrix.len(),
        moused(s, l, m).matrix[j] != s.matrix[j],
    ensures
        m.down,
        pressed(s, l, m).dragging_cell == Some(j as usize),
{
}

/// After the key for the next preset, the matrix is that preset.
pub proof fn law_cycle_sets_next_preset(s: ModelState, i: FrameInput, random: Seq<i64>)
    requires
        i.cycle,
    ensures
        after_frame(s, i, random).preset_index == (s.preset_index + 1) % 8,
        after_frame(s, i, random).matrix == preset_table(
            (s.preset_index + 1) % 8,
            s.params.num_types as int,
        ),
{
    law_input_keeps_simulation(s, i);
}

/// The preset after `presses` presses of the key.
pub open spec fn preset_after(index: int, presses: nat) -> int
    decreases presses,
{
    if presses == 0 {
        index
    } else {
        (preset_after(index, (presses - 1) as nat) + 1) % 8
    }
}

/// The key goes through all eight presets in order and then starts over.
#[verifier::spinoff_prover]
pub proof fn law_presets_cycle(index: int, presses: nat)
    requires
        0 <= index < 8,
    ensures
        preset_after(index, presses) == (index + presses) % 8,
        presses % 8 == 0 ==> preset_after(index, presses) == index,
    decreases presses,
{
    if presses > 0 {
        law_presets_cycle(index, (presses - 1) as nat);
        let m = index + presses - 1;
        assert((m % 8 + 1) % 8 == (m + 1) % 8);
    }
    if presses % 8 == 0 {
        assert((index + presses) % 8 == index);
    }
}

/// The key for a random matrix replaces the whole matrix, unless the key for the next
/// preset is pressed in the same frame.
pub proof fn law_randomize_replaces_matrix(s: ModelState, i: FrameInput, random: Seq<i64>)
    requires
        i.randomize,
        !i.cycle,
    ensures
        after_frame(s, i, random).matrix == random,
        after_frame(s, i, random).preset_index == s.preset_index,
{
    law_input_keeps_simulation(s, i);
}

/// Pressing the fullscreen key twice asks for the mode that the window was in.
pub proof fn law_fullscreen_twice(s: ModelState)
    ensures
        fullscreen_toggled(fullscreen_toggled(s, true), true).fullscreen == s.fullscreen,
{
}

/// The fullscreen key flips the mode and makes the program expect a new size of the window;
/// it does nothing else, and without it nothing happens.
pub proof fn law_fullscreen_key(s: ModelState)
    ensures
        ({
            let t = fullscreen_toggled(s, true);
            &&& t.fullscreen != s.fullscreen
            &&& t.pending_resize
            &&& s == (ModelState { fullscreen: s.fullscreen, pending_resize: s.pending_resize, ..t })
        }),
        fullscreen_toggled(s, false) == s,
{
}

/// While a new size is expected, a window that is larger or smaller than the known screen
/// by more than half a pixel in a half-extent, across or down, is taken over: the screen
/// becomes the window, and no further size is expected. Nothing else changes.
pub proof fn law_new_size_is_taken_over(s: ModelState, w: int, h: int)
    requires
        s.pending_resize,
        0 <= w <= COORD_MAX,
        0 <= h <= COORD_MAX,
        ({
            let dw = w / 2 - s.params.screen_half_w;
            let dh = h / 2 - s.params.screen_half_h;
            2 * dw > PX || 2 * dw < -PX || 2 * dh > PX || 2 * dh < -PX
        }),
    ensures
        ({
            let t = resized(s, w, h);
            &&& resize_due(s, w, h)
            &&& t.params.screen_half_w == w / 2
            &&& t.params.screen_half_h == h / 2
            &&& !t.pending_resize
            &&& t.params == (Params {
                screen_half_w: t.params.screen_half_w,
                screen_half_h: t.params.screen_half_h,
                ..s.params
            })
            &&& t == (ModelState { params: t.params, pending_resize: false, ..s })
        }),
{
}

/// A window whose half-extents are both within half a pixel of the known screen is the old
/// one: nothing changes, and a new size is still expected if it was.
pub proof fn law_old_size_is_waited_out(s: ModelState, w: int, h: int)
    requires
        ({
            let dw = w / 2 - s.params.screen_half_w;
            let dh = h / 2 - s.params.screen_half_h;
            -PX <= 2 * dw <= PX && -PX <= 2 * dh <= PX
        }),
    ensures
        !resize_due(s, w, h),
        resized(s, w, h) == s,
{
}

/// Leaving fullscreen undoes entering it: once the window has had its large size and is
/// back at a size that differs from it, the screen is the window again.
pub proof fn law_fullscreen_and_back(s: ModelState, w: int, h: int, big_w: int, big_h: int)
    requires
        0 <= w <= COORD_MAX,
        0 <= h <= COORD_MAX,
        0 <= big_w <= COORD_MAX,
        0 <= big_h <= COORD_MAX,
        s.params.screen_half_w == w / 2,
        s.params.screen_half_h == h / 2,
        2 * (big_w / 2 - w / 2) > PX || 2 * (big_h / 2 - h / 2) > PX,
    ensures
        ({
            let large = resized(fullscreen_toggled(s, true), big_w, big_h);
            let back = resized(fullscreen_toggled(large, true), w, h);
            &&& large.params.screen_half_w == big_w / 2 && large.params.screen_half_h == big_h / 2
            &&& back.params == s.params
            &&& back.fullscreen == s.fullscreen
        }),
{
}

/// The size of the window is taken over once: afterwards the same size, or any other,
/// changes nothing until the mode changes again.
pub proof fn law_resize_settles(s: ModelState, w: int, h: int, other_w: int, other_h: int)
    requires
        resize_due(s, w, h),
    ensures
        !resize_due(resized(s, w, h), other_w, other_h),
        resized(resized(s, w, h), other_w, other_h) == resized(s, w, h),
{
}

/// Without the fullscreen key a change of the window's size is not looked at.
pub proof fn law_resize_needs_mode_change(s: ModelState, w: int, h: int)
    requires
        !s.pending_resize,
    ensures
        resized(s, w, h) == s,
{
}

/// A frame without keys and without the mouse button changes nothing but the roles of
/// the particle buffers, and uploads neither parameters nor matrix.
pub proof fn law_idle_frame(s: ModelState, i: FrameInput, random: Seq<i64>)
    requires
        s.wf(),
        !s.pending_resize,
        !i.pause,
        !i.randomize,
        !i.cycle,
        i.keys == (CameraKeys {
            zoom_in: false,
            zoom_out: false,
            left: false,
            right: false,
            up: false,
            down: false,
        }),
        !i.mouse.down,
        steady(i.mouse),
    ensures
        !params_dirty(s, i),
        !matrix_dirty(s, i),
        after_frame(s, i, random) == (ModelState {
            current: after_frame(s, i, random).current,
            ui_vertex_count: after_frame(s, i, random).ui_vertex_count,
            ..s
        }),
{
    assert(handled(s, i) == s);
}

} // verus!
