//! The state of the program and what happens to it in a frame: keys and mouse in, and
//! out comes what to upload, what to draw and what to dispatch.

use crate::camera::{
    axis_step, pan_along, pan_length, pan_step, panned, wrap, zoom_after, zoom_by_keys, CameraKeys,
};
use crate::grid::{dispatch_passes, pass_list, Pass};
use crate::panel::{
    build_ui, entry_rect, law_panel_fits, law_panel_size, panel_size, panel_vertices, slider_speed,
    speed_at, speed_ok,
};
use crate::params::{initial_params, startup_params, Params, NUM_TYPES};
use crate::presets::{law_table_in_range, preset_matrix, preset_table, PRESET_COUNT};
use crate::random::{random_matrix, weights_drawn, weights_ok};
use crate::ui::{
    compute_ui_layout, grid_cell_rect, law_cells_are_disjoint, law_layout_wf, ui_layout, UiLayout,
    UiVertex,
};
use crate::units::{
    clamp, clamped, coord_ok, lemma_entry_position, Point, Ratio, COORD_MAX, PX, WEIGHT_ONE,
};
use rand::rngs::ThreadRng;
use vstd::prelude::*;

verus! {

/// Weight that a drag adds for each length unit: two full weights over 120 pixels.
pub const DRAG_GAIN: i64 = 5;

/// Vertices of the quad that each particle is drawn with.
pub const QUAD_VERTEX_COUNT: u32 = 6;

/// The mouse in a frame.
#[derive(Clone, Copy, PartialEq, Eq, Structural, Debug)]
pub struct Mouse {
    pub pos: Point,
    /// The left button went down in this frame.
    pub just_pressed: bool,
    /// The left button is down.
    pub down: bool,
    /// The left button went up in this frame.
    pub just_released: bool,
}

impl Mouse {
    pub open spec fn wf(self) -> bool {
        coord_ok(self.pos.x as int) && coord_ok(self.pos.y as int)
    }
}

/// What comes in from outside in a frame.
#[derive(Clone, Copy, PartialEq, Eq, Structural, Debug)]
pub struct FrameInput {
    /// The pause key was pressed.
    pub pause: bool,
    /// The key for a random matrix was pressed.
    pub randomize: bool,
    /// The key for the next preset was pressed.
    pub cycle: bool,
    pub keys: CameraKeys,
    /// Time since the last frame, in nanoseconds.
    pub dt: u64,
    pub mouse: Mouse,
    /// Size of the window, in length units.
    pub window_w: i64,
    pub window_h: i64,
}

impl FrameInput {
    pub open spec fn wf(self) -> bool {
        &&& self.mouse.wf()
        &&& 0 <= self.window_w <= COORD_MAX
        &&& 0 <= self.window_h <= COORD_MAX
    }
}

/// What the window is asked to become.
#[derive(Clone, Copy, PartialEq, Eq, Structural, Debug)]
pub enum WindowMode {
    BorderlessFullscreen,
    Windowed,
}

/// The simulation step to run.
#[derive(Clone, Copy, Debug)]
pub struct Dispatch {
    pub bind_group: usize,
    pub passes: [Pass; 6],
}

/// What goes out in a frame.
pub struct FrameOutput {
    /// The parameters need to be uploaded: they changed, or the slider is held.
    pub upload_params: bool,
    /// The matrix changed and needs to be uploaded.
    pub upload_matrix: bool,
    /// The geometry of the panel, uploaded in every frame.
    pub ui_vertices: Vec<UiVertex>,
    /// The simulation step, unless paused.
    pub dispatch: Option<Dispatch>,
}

/// What a frame draws.
#[derive(Clone, Copy, PartialEq, Eq, Structural, Debug)]
pub struct RenderPlan {
    pub bind_group: usize,
    /// Vertices and instances of the particle draw.
    pub vertices: u32,
    pub instances: u32,
    /// Vertices of the panel draw, if there is one.
    pub ui_vertices: Option<u32>,
}

/// The state of the program.
#[derive(Clone, Debug)]
pub struct Model {
    /// The bind group of the next simulation step.
    pub current: usize,
    pub paused: bool,
    pub params: Params,
    /// The interaction matrix, row by row.
    pub matrix: Vec<i64>,
    /// The binary logarithm of the speed multiplier.
    pub speed_log2: Ratio,
    pub dragging_speed: bool,
    /// The matrix entry that is being dragged.
    pub dragging_cell: Option<usize>,
    pub drag_start_value: i64,
    pub drag_start_mouse_y: i64,
    pub preset_index: usize,
    pub fullscreen: bool,
    /// The window was asked to change its mode and has not changed its size yet.
    pub pending_resize: bool,
    pub ui_vertex_count: u32,
}

/// The mathematical view of a [`Model`].
#[verifier::ext_equal]
pub struct ModelState {
    pub current: usize,
    pub paused: bool,
    pub params: Params,
    pub matrix: Seq<i64>,
    pub speed_log2: Ratio,
    pub dragging_speed: bool,
    pub dragging_cell: Option<usize>,
    pub drag_start_value: i64,
    pub drag_start_mouse_y: i64,
    pub preset_index: usize,
    pub fullscreen: bool,
    pub pending_resize: bool,
    pub ui_vertex_count: u32,
}

impl View for Model {
    type V = ModelState;

    open spec fn view(&self) -> ModelState {
        ModelState {
            current: self.current,
            paused: self.paused,
            params: self.params,
            matrix: self.matrix@,
            speed_log2: self.speed_log2,
            dragging_speed: self.dragging_speed,
            dragging_cell: self.dragging_cell,
            drag_start_value: self.drag_start_value,
            drag_start_mouse_y: self.drag_start_mouse_y,
            preset_index: self.preset_index,
            fullscreen: self.fullscreen,
            pending_resize: self.pending_resize,
            ui_vertex_count: self.ui_vertex_count,
        }
    }
}

impl ModelState {
    /// The matrix has one weight between -1 and 1 for each pair of types, what is being
    /// dragged exists, and every counter is in its range.
    pub open spec fn wf(self) -> bool {
        &&& self.params.wf()
        &&& self.matrix.len() == self.params.num_types * self.params.num_types
        &&& weights_ok(self.matrix)
        &&& speed_ok(self.speed_log2)
        &&& self.dragging_cell is Some ==> self.dragging_cell->0 < self.matrix.len()
        &&& -WEIGHT_ONE <= self.drag_start_value <= WEIGHT_ONE
        &&& coord_ok(self.drag_start_mouse_y as int)
        &&& self.preset_index < PRESET_COUNT
        &&& self.current < 2
    }

    /// The force scale that the shaders read is the one that the slider shows.
    pub open spec fn in_sync(self) -> bool {
        self.params.force_log2 == self.speed_log2
    }
}

/// The state at startup with the given matrix.
pub open spec fn startup_state(matrix: Seq<i64>) -> ModelState {
    ModelState {
        current: 0,
        paused: false,
        params: startup_params(),
        matrix,
        speed_log2: Ratio { num: 0, den: 1 },
        dragging_speed: false,
        dragging_cell: None,
        drag_start_value: 0,
        drag_start_mouse_y: 0,
        preset_index: 0,
        fullscreen: false,
        pending_resize: false,
        ui_vertex_count: 0,
    }
}

/// The state after the fullscreen key: the mode flips, and a new window size is
/// expected.
pub open spec fn fullscreen_toggled(s: ModelState, pressed: bool) -> ModelState {
    if pressed {
        ModelState { fullscreen: !s.fullscreen, pending_resize: true, ..s }
    } else {
        s
    }
}

pub open spec fn far(a: int, b: int) -> bool {
    a - b > PX / 2 || b - a > PX / 2
}

/// A new window size is expected, and the window differs from the known screen by more
/// than half a pixel in a half-extent.
pub open spec fn resize_due(s: ModelState, w: int, h: int) -> bool {
    s.pending_resize && (far(w / 2, s.params.screen_half_w as int) || far(
        h / 2,
        s.params.screen_half_h as int,
    ))
}

/// The state after looking at the window's size.
pub open spec fn resized(s: ModelState, w: int, h: int) -> ModelState {
    if resize_due(s, w, h) {
        ModelState {
            params: Params {
                screen_half_w: (w / 2) as i64,
                screen_half_h: (h / 2) as i64,
                ..s.params
            },
            pending_resize: false,
            ..s
        }
    } else {
        s
    }
}

/// The step of the camera in a frame.
pub open spec fn camera_step(p: Params, keys: CameraKeys, dt: int) -> (int, int) {
    let length = pan_length(zoom_after(p.zoom as int, keys, dt), dt);
    (axis_step(keys.right, keys.left, length), axis_step(keys.up, keys.down, length))
}

/// The parameters after the camera keys: first the zoom, then a pan at the new zoom.
pub open spec fn camera_moved(p: Params, keys: CameraKeys, dt: int) -> Params {
    let at = panned(
        (p.camera_x as int, p.camera_y as int),
        camera_step(p, keys, dt),
        (p.half_width as int, p.half_height as int),
    );
    Params {
        zoom: zoom_after(p.zoom as int, keys, dt) as i64,
        camera_x: at.0 as i64,
        camera_y: at.1 as i64,
        ..p
    }
}

/// The point lies in the cell of matrix entry `k`.
pub open spec fn on_entry(l: UiLayout, n: int, p: Point, k: int) -> bool {
    0 <= k < n * n && entry_rect(l, n, k).holds(p)
}

/// The matrix entry whose cell holds the point, if there is one.
pub open spec fn entry_at(l: UiLayout, n: int, p: Point) -> Option<int> {
    if exists|k: int| on_entry(l, n, p, k) {
        Some(choose|k: int| on_entry(l, n, p, k))
    } else {
        None
    }
}

/// The state after a press: the slider is taken hold of, or else the matrix entry under
/// the mouse, with its value and the mouse's height noted down.
pub open spec fn pressed(s: ModelState, l: UiLayout, m: Mouse) -> ModelState {
    if !m.just_pressed {
        s
    } else if l.slider_hit.holds(m.pos) {
        ModelState { dragging_speed: true, ..s }
    } else {
        match entry_at(l, s.params.num_types as int, m.pos) {
            Some(k) => ModelState {
                dragging_cell: Some(k as usize),
                drag_start_value: s.matrix[k],
                drag_start_mouse_y: m.pos.y,
                ..s
            },
            None => s,
        }
    }
}

/// The slider is held, whether the mouse moves it or keeps it still.
pub open spec fn sliding(s: ModelState, m: Mouse) -> bool {
    m.down && s.dragging_speed
}

/// The state after moving the slider.
pub open spec fn slid(s: ModelState, l: UiLayout, m: Mouse) -> ModelState {
    if sliding(s, m) {
        ModelState { speed_log2: slider_speed(l, m.pos.x as int), ..s }
    } else {
        s
    }
}

/// The value that the dragged entry has with the mouse at height `y`: the value at the
/// start of the drag plus the way since then, between -1 and 1.
pub open spec fn dragged_value(s: ModelState, y: int) -> int {
    clamped(
        s.drag_start_value + DRAG_GAIN * (y - s.drag_start_mouse_y),
        -WEIGHT_ONE,
        WEIGHT_ONE as int,
    )
}

/// The state after dragging a matrix entry.
pub open spec fn dragged(s: ModelState, m: Mouse) -> ModelState {
    match s.dragging_cell {
        Some(k) if m.down => ModelState {
            matrix: s.matrix.update(k as int, dragged_value(s, m.pos.y as int) as i64),
            ..s
        },
        _ => s,
    }
}

/// The state after a release: nothing is held any more.
pub open spec fn released(s: ModelState, m: Mouse) -> ModelState {
    if m.just_released {
        ModelState { dragging_speed: false, dragging_cell: None, ..s }
    } else {
        s
    }
}

/// The state after the mouse: press, slide, drag, release.
pub open spec fn moused(s: ModelState, l: UiLayout, m: Mouse) -> ModelState {
    released(dragged(slid(pressed(s, l, m), l, m), m), m)
}

/// The layout of the panel on the current screen.
pub open spec fn layout_of(p: Params) -> UiLayout {
    ui_layout(p.screen_half_w as int, p.screen_half_h as int, p.num_types as int)
}

/// The state after the pause key, the window's size and the camera keys.
pub open spec fn viewed(s: ModelState, i: FrameInput) -> ModelState {
    let t = resized(
        ModelState { paused: s.paused != i.pause, ..s },
        i.window_w as int,
        i.window_h as int,
    );
    ModelState { params: camera_moved(t.params, i.keys, i.dt as int), ..t }
}

/// The state after all of a frame's input but the matrix keys.
pub open spec fn handled(s: ModelState, i: FrameInput) -> ModelState {
    let t = viewed(s, i);
    moused(t, layout_of(t.params), i.mouse)
}

/// The parameters need to be uploaded: the screen or the camera changed, or the slider is
/// held.
pub open spec fn params_dirty(s: ModelState, i: FrameInput) -> bool {
    let t = viewed(s, i);
    ||| t.params != s.params
    ||| sliding(pressed(t, layout_of(t.params), i.mouse), i.mouse)
}

/// The matrix needs to be uploaded: a key replaced it or the mouse changed an entry.
pub open spec fn matrix_dirty(s: ModelState, i: FrameInput) -> bool {
    i.randomize || i.cycle || handled(s, i).matrix != s.matrix
}

/// The matrix after the matrix keys: the next preset, or else the random matrix, or
/// else as it was.
pub open spec fn chosen_matrix(s: ModelState, i: FrameInput, random: Seq<i64>) -> Seq<i64> {
    if i.cycle {
        preset_table((s.preset_index + 1) % 8, s.params.num_types as int)
    } else if i.randomize {
        random
    } else {
        s.matrix
    }
}

/// The state at the end of a frame, from the state after its input: the force scale is
/// taken over if the parameters are uploaded, the matrix keys act, and unless paused the
/// two particle buffers swap roles.
pub open spec fn finished(t: ModelState, dirty: bool, i: FrameInput, random: Seq<i64>) -> ModelState {
    ModelState {
        params: if dirty {
            Params { force_log2: t.speed_log2, ..t.params }
        } else {
            t.params
        },
        matrix: chosen_matrix(t, i, random),
        preset_index: if i.cycle {
            ((t.preset_index + 1) % 8) as usize
        } else {
            t.preset_index
        },
        ui_vertex_count: panel_size(t.params.num_types as int) as u32,
        current: if t.paused {
            t.current
        } else {
            (1 - t.current) as usize
        },
        ..t
    }
}

/// The state after a frame with the given random matrix at hand.
pub open spec fn after_frame(s: ModelState, i: FrameInput, random: Seq<i64>) -> ModelState {
    finished(handled(s, i), params_dirty(s, i), i, random)
}

/// The panel drawn in a state.
pub open spec fn panel_of(s: ModelState) -> Seq<UiVertex> {
    panel_vertices(
        layout_of(s.params),
        s.matrix,
        s.dragging_cell,
        s.speed_log2,
        s.params.num_types as int,
        s.params.screen_half_w,
        s.params.screen_half_h,
    )
}

/// The simulation step of a frame that leads from `s` to `t`: none while paused, and
/// otherwise all passes, with the bind group that was current.
pub open spec fn dispatch_of(s: ModelState, t: ModelState) -> Option<Dispatch> {
    if t.paused {
        None
    } else {
        Some(
            Dispatch {
                bind_group: s.current,
                passes: pass_list(s.params.num_particles as int, s.params.num_cells as int),
            },
        )
    }
}

/// The panel has room for few types only.
proof fn lemma_few_types(s: ModelState)
    requires
        s.wf(),
    ensures
        s.params.num_types <= 11,
        s.params.num_types * s.params.num_types <= 121,
{
    let n = s.params.num_types;
    law_panel_fits(n as int);
    assert(n * n <= 121) by (nonlinear_arith)
        requires
            0 <= n <= 11,
    ;
}

/// Window, camera and mouse leave the simulation alone: the world, the grid, the number
/// of particles and types and the physics stay as they are, and so does the buffer that
/// is drawn.
pub proof fn law_input_keeps_simulation(s: ModelState, i: FrameInput)
    ensures
        handled(s, i).params.same_simulation(s.params),
        handled(s, i).params == viewed(s, i).params,
        handled(s, i).current == s.current,
        viewed(s, i).matrix == s.matrix,
        handled(s, i).preset_index == s.preset_index,
        handled(s, i).paused == (s.paused != i.pause),
{
}

/// The force scale follows the slider: a frame never leaves the two apart.
pub proof fn law_force_follows_slider(s: ModelState, i: FrameInput, random: Seq<i64>)
    requires
        s.in_sync(),
    ensures
        after_frame(s, i, random).in_sync(),
{
}

impl Model {
    /// The state is well-formed.
    pub open spec fn wf(&self) -> bool {
        self@.wf()
    }

    /// The state at startup with the given matrix.
    pub fn with_matrix(matrix: Vec<i64>) -> (model: Model)
        requires
            matrix.len() == NUM_TYPES * NUM_TYPES,
            weights_ok(matrix@),
        ensures
            model@ == startup_state(matrix@),
            model.wf(),
            model@.in_sync(),
    {
        let params = initial_params();
        Model {
            current: 0,
            paused: false,
            params,
            matrix,
            speed_log2: Ratio { num: 0, den: 1 },
            dragging_speed: false,
            dragging_cell: None,
            drag_start_value: 0,
            drag_start_mouse_y: 0,
            preset_index: 0,
            fullscreen: false,
            pending_resize: false,
            ui_vertex_count: 0,
        }
    }

    /// The state at startup, with a random matrix.
    pub fn new(rng: &mut ThreadRng) -> (model: Model)
        ensures
            model@ == startup_state(model.matrix@),
            weights_drawn(model.matrix@),
            model.wf(),
            model@.in_sync(),
    {
        let matrix = random_matrix(rng, NUM_TYPES);
        Model::with_matrix(matrix)
    }

    /// Takes the fullscreen key, and returns the mode that the window is to enter. The
    /// window takes a frame or more to follow; [`Model::handle_resize`] waits for it.
    pub fn handle_fullscreen(&mut self, key_pressed: bool) -> (mode: Option<WindowMode>)
        requires
            old(self).wf(),
        ensures
            final(self)@ == fullscreen_toggled(old(self)@, key_pressed),
            final(self).wf(),
            mode == (if !key_pressed {
                None::<WindowMode>
            } else if final(self)@.fullscreen {
                Some(WindowMode::BorderlessFullscreen)
            } else {
                Some(WindowMode::Windowed)
            }),
    {
        if !key_pressed {
            return None;
        }
        self.fullscreen = !self.fullscreen;
        self.pending_resize = true;
        if self.fullscreen {
            Some(WindowMode::BorderlessFullscreen)
        } else {
            Some(WindowMode::Windowed)
        }
    }

    /// While a new window size is expected, takes over the size of the window once it
    /// differs from the known one. Returns whether it did. The world is untouched.
    pub fn handle_resize(&mut self, window_w: i64, window_h: i64) -> (changed: bool)
        requires
            old(self).wf(),
            0 <= window_w <= COORD_MAX,
            0 <= window_h <= COORD_MAX,
        ensures
            final(self)@ == resized(old(self)@, window_w as int, window_h as int),
            changed == resize_due(old(self)@, window_w as int, window_h as int),
            changed == (final(self)@.params != old(self)@.params),
            final(self).wf(),
    {
        if !self.pending_resize {
            return false;
        }
        let half_w: i64 = window_w / 2;
        let half_h: i64 = window_h / 2;
        let dw: i64 = half_w - self.params.screen_half_w;
        let dh: i64 = half_h - self.params.screen_half_h;
        if dw > PX / 2 || -dw > PX / 2 || dh > PX / 2 || -dh > PX / 2 {
            self.params.screen_half_w = half_w;
            self.params.screen_half_h = half_h;
            self.pending_resize = false;
            true
        } else {
            false
        }
    }

    /// Takes the camera keys that are held: zoom, continuous while held, and pan, whose
    /// speed is the same on the screen at any zoom. Panning past an edge of the world
    /// wraps around, as the particles do. Returns whether the parameters changed: a zoom
    /// key that is held at the limit of the zoom changes nothing.
    pub fn handle_camera_input(&mut self, keys: &CameraKeys, dt: u64) -> (changed: bool)
        requires
            old(self).wf(),
        ensures
            final(self)@ == (ModelState {
                params: camera_moved(old(self)@.params, *keys, dt as int),
                ..old(self)@
            }),
            changed == (final(self)@.params != old(self)@.params),
            final(self).wf(),
    {
        let before: Params = self.params;
        let zoom: i64 = zoom_by_keys(before.zoom, keys, dt);
        self.params.zoom = zoom;

        let length: i128 = pan_step(zoom, dt);
        let pan_x: i128 = pan_along(keys.right, keys.left, length);
        let pan_y: i128 = pan_along(keys.up, keys.down, length);
        if pan_x != 0 || pan_y != 0 {
            self.params.camera_x = wrap(self.params.camera_x as i128 + pan_x, self.params.half_width);
            self.params.camera_y = wrap(self.params.camera_y as i128 + pan_y, self.params.half_height);
        }
        self.params != before
    }

    /// Takes the mouse: press to take hold of the slider or of a matrix entry, drag to
    /// set it, release to let go. Returns whether the slider is held, even where it is
    /// held still, and whether the matrix changed.
    pub fn handle_ui_mouse(&mut self, mouse: &Mouse, layout: &UiLayout) -> (changed: (bool, bool))
        requires
            old(self).wf(),
            mouse.wf(),
            layout.wf(),
        ensures
            final(self)@ == moused(old(self)@, *layout, *mouse),
            changed.0 == sliding(pressed(old(self)@, *layout, *mouse), *mouse),
            changed.1 == (final(self)@.matrix != old(self)@.matrix),
            final(self).wf(),
    {
        let ghost before = self@;
        let mut params_changed: bool = false;
        let mut matrix_changed: bool = false;

        if mouse.just_pressed {
            if layout.slider_hit.contains(mouse.pos) {
                self.dragging_speed = true;
            } else {
                match find_entry(layout, self.params.num_types, mouse.pos) {
                    Some(idx) => {
                        self.dragging_cell = Some(idx);
                        self.drag_start_value = self.matrix[idx];
                        self.drag_start_mouse_y = mouse.pos.y;
                    },
                    None => {},
                }
            }
        }
        assert(self@ == pressed(before, *layout, *mouse));

        if mouse.down && self.dragging_speed {
            self.speed_log2 = speed_at(layout, mouse.pos.x);
            params_changed = true;
        }
        let ghost middle = self@;
        assert(middle == slid(pressed(before, *layout, *mouse), *layout, *mouse));

        // The value follows the mouse absolutely, from the start of the drag, rather
        // than adding up what each frame contributes.
        if mouse.down {
            if let Some(idx) = self.dragging_cell {
                let moved: i128 = self.drag_start_value as i128 + (DRAG_GAIN as i128) * (
                mouse.pos.y as i128 - self.drag_start_mouse_y as i128);
                let new_value: i64 = clamp(
                    moved,
                    -(WEIGHT_ONE as i128),
                    WEIGHT_ONE as i128,
                ) as i64;
                if new_value != self.matrix[idx] {
                    self.matrix[idx] = new_value;
                    matrix_changed = true;
                    assert(self.matrix[idx as int] != middle.matrix[idx as int]);
                }
                assert(self.matrix@ =~= middle.matrix.update(idx as int, new_value));
            }
        }
        assert(self@ == dragged(middle, *mouse));

        if mouse.just_released {
            self.dragging_speed = false;
            self.dragging_cell = None;
        }
        (params_changed, matrix_changed)
    }

    /// Takes the pause key, the window's size and the camera keys. Returns whether the
    /// parameters changed.
    fn handle_view(&mut self, input: &FrameInput) -> (changed: bool)
        requires
            old(self).wf(),
            input.wf(),
        ensures
            final(self)@ == viewed(old(self)@, *input),
            final(self).wf(),
            changed == (final(self)@.params != old(self)@.params),
    {
        if input.pause {
            self.paused = !self.paused;
        }
        let resized: bool = self.handle_resize(input.window_w, input.window_h);
        let moved: bool = self.handle_camera_input(&input.keys, input.dt);
        resized || moved
    }

    /// Takes all of a frame's input but the matrix keys. Returns whether the parameters
    /// need to be uploaded and whether the matrix changed.
    #[verifier::spinoff_prover]
    fn handle_input(&mut self, input: &FrameInput) -> (changed: (bool, bool))
        requires
            old(self).wf(),
            input.wf(),
        ensures
            final(self)@ == handled(old(self)@, *input),
            final(self).wf(),
            changed.0 == params_dirty(old(self)@, *input),
            changed.1 == (final(self)@.matrix != old(self)@.matrix),
    {
        let changed: bool = self.handle_view(input);
        proof {
            law_panel_fits(self.params.num_types as int);
            law_layout_wf(
                self.params.screen_half_w as int,
                self.params.screen_half_h as int,
                self.params.num_types as int,
            );
        }
        let layout = compute_ui_layout(
            self.params.screen_half_w,
            self.params.screen_half_h,
            self.params.num_types,
        );
        let (slid, dragged): (bool, bool) = self.handle_ui_mouse(&input.mouse, &layout);
        (changed || slid, dragged)
    }

    /// Takes the matrix keys.
    fn handle_matrix_keys(&mut self, input: &FrameInput, random: Vec<i64>)
        requires
            old(self).wf(),
            input.randomize ==> random.len() == old(self)@.matrix.len() && weights_ok(random@),
        ensures
            final(self)@ == (ModelState {
                matrix: chosen_matrix(old(self)@, *input, random@),
                preset_index: if input.cycle {
                    ((old(self)@.preset_index + 1) % 8) as usize
                } else {
                    old(self)@.preset_index
                },
                ..old(self)@
            }),
            final(self).wf(),
    {
        if input.randomize {
            self.matrix = random;
        }
        if input.cycle {
            let num_types: u32 = self.params.num_types;
            self.preset_index = (self.preset_index + 1) % PRESET_COUNT;
            proof {
                lemma_few_types(self@);
                law_table_in_range(self.preset_index as int, num_types as int);
            }
            self.matrix = preset_matrix(self.preset_index, num_types);
        }
    }

    /// The geometry of the panel.
    fn draw_panel(&self) -> (verts: Vec<UiVertex>)
        requires
            self.wf(),
        ensures
            verts@ == panel_of(self@),
            verts.len() == panel_size(self.params.num_types as int),
    {
        let half_w: i64 = self.params.screen_half_w;
        let half_h: i64 = self.params.screen_half_h;
        let num_types: u32 = self.params.num_types;
        proof {
            lemma_few_types(self@);
            law_layout_wf(half_w as int, half_h as int, num_types as int);
        }
        let layout = compute_ui_layout(half_w, half_h, num_types);
        proof {
            law_panel_size(
                layout,
                self.matrix@,
                self.dragging_cell,
                self.speed_log2,
                num_types as int,
                half_w,
                half_h,
            );
        }
        build_ui(
            &self.matrix,
            self.dragging_cell,
            self.speed_log2,
            &layout,
            half_w,
            half_h,
            num_types,
        )
    }

    /// Ends a frame once its input has been taken. Returns the panel's geometry and the
    /// simulation step.
    fn finish_frame(&mut self, dirty: bool, input: &FrameInput, random: Vec<i64>) -> (out: (
        Vec<UiVertex>,
        Option<Dispatch>,
    ))
        requires
            old(self).wf(),
            input.randomize ==> random.len() == old(self)@.matrix.len() && weights_ok(random@),
        ensures
            final(self)@ == finished(old(self)@, dirty, *input, random@),
            final(self).wf(),
            out.0@ == panel_of(final(self)@),
            out.1 == dispatch_of(old(self)@, final(self)@),
    {
        if dirty {
            self.params.force_log2 = self.speed_log2;
        }
        self.handle_matrix_keys(input, random);
        let ui_vertices = self.draw_panel();
        proof {
            lemma_few_types(self@);
        }
        self.ui_vertex_count = ui_vertices.len() as u32;

        if self.paused {
            return (ui_vertices, None);
        }
        let bind_group: usize = self.current;
        self.current = 1 - self.current;
        let passes = dispatch_passes(self.params.num_particles, self.params.num_cells);
        (ui_vertices, Some(Dispatch { bind_group, passes }))
    }

    /// One frame, with the random matrix that the key for it would set.
    pub fn step(&mut self, input: &FrameInput, random: Vec<i64>) -> (out: FrameOutput)
        requires
            old(self).wf(),
            input.wf(),
            input.randomize ==> random.len() == old(self)@.matrix.len() && weights_ok(random@),
        ensures
            final(self)@ == after_frame(old(self)@, *input, random@),
            final(self).wf(),
            old(self)@.in_sync() ==> final(self)@.in_sync(),
            out.upload_params == params_dirty(old(self)@, *input),
            out.upload_matrix == matrix_dirty(old(self)@, *input),
            out.ui_vertices@ == panel_of(final(self)@),
            out.dispatch == dispatch_of(old(self)@, final(self)@),
    {
        let ghost before = self@;
        proof {
            law_input_keeps_simulation(before, *input);
            if before.in_sync() {
                law_force_follows_slider(before, *input, random@);
            }
        }
        let (upload_params, dragged): (bool, bool) = self.handle_input(input);
        let (ui_vertices, dispatch) = self.finish_frame(upload_params, input, random);
        let upload_matrix: bool = input.randomize || input.cycle || dragged;
        FrameOutput { upload_params, upload_matrix, ui_vertices, dispatch }
    }

    /// One frame. A random matrix is drawn if the key for it was pressed.
    pub fn update(&mut self, input: &FrameInput, rng: &mut ThreadRng) -> (out: FrameOutput)
        requires
            old(self).wf(),
            input.wf(),
        ensures
            exists|random: Seq<i64>|
                {
                    &&& final(self)@ == #[trigger] after_frame(old(self)@, *input, random)
                    &&& input.randomize ==> weights_drawn(random) && random.len()
                        == old(self)@.matrix.len()
                },
            final(self).wf(),
            old(self)@.in_sync() ==> final(self)@.in_sync(),
            out.upload_params == params_dirty(old(self)@, *input),
            out.upload_matrix == matrix_dirty(old(self)@, *input),
            out.ui_vertices@ == panel_of(final(self)@),
            out.dispatch == dispatch_of(old(self)@, final(self)@),
    {
        proof {
            lemma_few_types(self@);
        }
        let random: Vec<i64> = if input.randomize {
            random_matrix(rng, self.params.num_types)
        } else {
            Vec::new()
        };
        self.step(input, random)
    }

    /// What to draw: the particles that the last step wrote, each as a quad, and then
    /// the panel, if it has any geometry.
    pub fn render(&self) -> (plan: RenderPlan)
        ensures
            plan == (RenderPlan {
                bind_group: self.current,
                vertices: QUAD_VERTEX_COUNT,
                instances: self.params.num_particles,
                ui_vertices: if self.ui_vertex_count > 0 {
                    Some(self.ui_vertex_count)
                } else {
                    None
                },
            }),
    {
        RenderPlan {
            bind_group: self.current,
            vertices: QUAD_VERTEX_COUNT,
            instances: self.params.num_particles,
            ui_vertices: if self.ui_vertex_count > 0 {
                Some(self.ui_vertex_count)
            } else {
                None
            },
        }
    }
}

/// A point lies in at most one cell of the matrix.
pub proof fn lemma_entry_is_unique(l: UiLayout, n: int, p: Point, j: int, k: int)
    requires
        l.wf(),
        0 <= n < u32::MAX,
        on_entry(l, n, p, j),
        on_entry(l, n, p, k),
    ensures
        j == k,
{
    lemma_entry_position(j, n);
    lemma_entry_position(k, n);
    law_cells_are_disjoint(l.grid_origin, j / n + 1, j % n + 1, k / n + 1, k % n + 1, p);
    vstd::arithmetic::div_mod::lemma_fundamental_div_mod(j, n);
    vstd::arithmetic::div_mod::lemma_fundamental_div_mod(k, n);
}

/// The matrix entry whose cell holds the point, if there is one.
pub fn find_entry(layout: &UiLayout, num_types: u32, p: Point) -> (r: Option<usize>)
    requires
        layout.wf(),
        num_types * num_types <= u32::MAX,
    ensures
        r matches Some(k) ==> entry_at(*layout, num_types as int, p) == Some(k as int) && k < num_types
            * num_types,
        r is None ==> entry_at(*layout, num_types as int, p) is None,
{
    proof {
        assert(num_types <= 65535) by (nonlinear_arith)
            requires
                num_types * num_types <= u32::MAX,
        ;
    }
    let total: u32 = num_types * num_types;
    let mut found: Option<usize> = None;
    let mut idx: u32 = 0;
    while idx < total
        invariant
            idx <= total,
            total == num_types * num_types,
            num_types <= 65535,
            layout.wf(),
            found matches Some(k) ==> on_entry(*layout, num_types as int, p, k as int),
            found is None ==> forall|k: int|
                0 <= k < idx ==> !#[trigger] on_entry(*layout, num_types as int, p, k),
        decreases total - idx,
    {
        proof {
            lemma_entry_position(idx as int, num_types as int);
        }
        let cell = grid_cell_rect(layout.grid_origin, idx / num_types + 1, idx % num_types + 1);
        if cell.contains(p) {
            found = Some(idx as usize);
            assert(on_entry(*layout, num_types as int, p, idx as int));
        }
        idx = idx + 1;
    }
    proof {
        if let Some(k) = found {
            let n = num_types as int;
            let c = choose|j: int| on_entry(*layout, n, p, j);
            assert(on_entry(*layout, n, p, k as int));
            lemma_entry_is_unique(*layout, n, p, c, k as int);
        }
    }
    found
}

} // verus!
