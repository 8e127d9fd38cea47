//! The parameters that the shaders read, and their values at startup.

use crate::camera::{ZOOM_MAX, ZOOM_MIN};
use crate::grid::{cells_needed, grid_for, grid_spec, CELL_SIZE, WORKGROUP_SIZE};
use crate::panel::{panel_size, speed_ok};
use crate::ui::UI_MAX_VERTICES;
use crate::units::{Ratio, COORD_MAX, PX, ZOOM_ONE};
use vstd::prelude::*;

verus! {

/// The window's size at startup, in pixels.
pub const WINDOW_W: i64 = 1280;

pub const WINDOW_H: i64 = 720;

/// The size of the world, in pixels: larger than the screen and of the same shape, so
/// that there is a canvas to pan and zoom around in. It never changes.
pub const WORLD_W: i64 = 4096;

pub const WORLD_H: i64 = 2304;

pub const NUM_PARTICLES: u32 = 130_000;

pub const NUM_TYPES: u32 = 6;

/// The most particles that are looked at in a neighbouring cell. Particles cluster by
/// design; this bounds the cost of a particle however full its cells are.
pub const MAX_CELL_SCAN: u32 = 400;

/// The force scale at normal speed.
pub const BASE_FORCE_SCALE: i64 = 75;

/// The parameters of the simulation and of the view.
#[derive(Clone, Copy, PartialEq, Eq, Structural, Debug)]
pub struct Params {
    /// Half-extents of the world, in length units.
    pub half_width: i64,
    pub half_height: i64,
    /// Simulated seconds per step.
    pub dt: Ratio,
    pub friction: Ratio,
    /// Interaction radius, in length units.
    pub max_radius: i64,
    pub beta: Ratio,
    /// The force scale is [`BASE_FORCE_SCALE`] times two to this power.
    pub force_log2: Ratio,
    /// Drawn radius of a particle, in length units.
    pub particle_radius: i64,
    pub num_types: u32,
    pub num_particles: u32,
    /// Side of a grid cell, in length units.
    pub cell_size: i64,
    pub grid_cols: u32,
    pub grid_rows: u32,
    pub num_cells: u32,
    pub max_cell_scan: u32,
    /// Half-extents of the screen, in length units.
    pub screen_half_w: i64,
    pub screen_half_h: i64,
    /// The point of the world in the middle of the screen, in length units.
    pub camera_x: i64,
    pub camera_y: i64,
    /// Magnification, in units of `1 / ZOOM_ONE`.
    pub zoom: i64,
}

impl Params {
    /// The camera looks at a point of the world with a zoom within its limits, and the
    /// numbers of types, particles and cells can be drawn and dispatched.
    pub open spec fn wf(self) -> bool {
        &&& 0 < self.half_width <= COORD_MAX
        &&& 0 < self.half_height <= COORD_MAX
        &&& 0 <= self.screen_half_w <= COORD_MAX
        &&& 0 <= self.screen_half_h <= COORD_MAX
        &&& -self.half_width <= self.camera_x < self.half_width
        &&& -self.half_height <= self.camera_y < self.half_height
        &&& ZOOM_MIN <= self.zoom <= ZOOM_MAX
        &&& speed_ok(self.force_log2)
        &&& panel_size(self.num_types as int) <= UI_MAX_VERTICES
        &&& self.num_particles + WORKGROUP_SIZE <= u32::MAX
        &&& self.num_cells + WORKGROUP_SIZE <= u32::MAX
    }

    /// The parameters agree in everything that the simulation itself depends on; only
    /// the view and the force scale may differ.
    pub open spec fn same_simulation(self, other: Params) -> bool {
        self == (Params {
            force_log2: self.force_log2,
            screen_half_w: self.screen_half_w,
            screen_half_h: self.screen_half_h,
            camera_x: self.camera_x,
            camera_y: self.camera_y,
            zoom: self.zoom,
            ..other
        })
    }
}

/// The zoom at which an extent of the world fills an extent of the window.
pub open spec fn fitting_zoom(window: int, world: int) -> int {
    window * ZOOM_ONE / world
}

/// The parameters at startup.
pub open spec fn startup_params() -> Params {
    let grid = grid_spec(WORLD_W * PX / 2, WORLD_H * PX / 2);
    let zoom_w = fitting_zoom(WINDOW_W as int, WORLD_W as int);
    let zoom_h = fitting_zoom(WINDOW_H as int, WORLD_H as int);
    Params {
        half_width: (WORLD_W * PX / 2) as i64,
        half_height: (WORLD_H * PX / 2) as i64,
        dt: Ratio { num: 1, den: 60 },
        friction: Ratio::hundredths(80),
        max_radius: (80 * PX) as i64,
        beta: Ratio::hundredths(30),
        force_log2: Ratio { num: 0, den: 1 },
        particle_radius: (3 * PX) as i64,
        num_types: NUM_TYPES,
        num_particles: NUM_PARTICLES,
        cell_size: CELL_SIZE,
        grid_cols: grid.cols,
        grid_rows: grid.rows,
        num_cells: grid.num_cells,
        max_cell_scan: MAX_CELL_SCAN,
        screen_half_w: (WINDOW_W * PX / 2) as i64,
        screen_half_h: (WINDOW_H * PX / 2) as i64,
        camera_x: 0,
        camera_y: 0,
        zoom: (if zoom_w < zoom_h {
            zoom_w
        } else {
            zoom_h
        }) as i64,
    }
}

/// The grid of the world at startup.
proof fn lemma_startup_grid()
    ensures
        cells_needed(WORLD_W * PX) == 52,
        cells_needed(WORLD_H * PX) == 29,
{
}

/// The parameters at startup: the camera in the middle of the world, zoomed out just
/// enough to fit the whole world into the window.
pub fn initial_params() -> (p: Params)
    ensures
        p == startup_params(),
        p.wf(),
        p.grid_cols == 52,
        p.grid_rows == 29,
        p.num_cells == 1508,
{
    let half_width: i64 = WORLD_W * PX / 2;
    let half_height: i64 = WORLD_H * PX / 2;
    proof {
        lemma_startup_grid();
    }
    let grid = grid_for(half_width, half_height);
    let zoom_w: i64 = WINDOW_W * ZOOM_ONE / WORLD_W;
    let zoom_h: i64 = WINDOW_H * ZOOM_ONE / WORLD_H;
    Params {
        half_width,
        half_height,
        dt: Ratio { num: 1, den: 60 },
        friction: Ratio::hundredths(80),
        max_radius: 80 * PX,
        beta: Ratio::hundredths(30),
        force_log2: Ratio { num: 0, den: 1 },
        particle_radius: 3 * PX,
        num_types: NUM_TYPES,
        num_particles: NUM_PARTICLES,
        cell_size: CELL_SIZE,
        grid_cols: grid.cols,
        grid_rows: grid.rows,
        num_cells: grid.num_cells,
        max_cell_scan: MAX_CELL_SCAN,
        screen_half_w: WINDOW_W * PX / 2,
        screen_half_h: WINDOW_H * PX / 2,
        camera_x: 0,
        camera_y: 0,
        zoom: if zoom_w < zoom_h {
            zoom_w
        } else {
            zoom_h
        },
    }
}

/// The physics at startup: 60 steps a second, friction 0.8, interaction over 80 pixels with
/// repulsion inside the nearest 0.3 of that, and normal speed.
pub proof fn law_startup_physics()
    ensures
        startup_params().dt.equals(1, 60),
        startup_params().friction.equals(80, 100),
        startup_params().max_radius == 80 * PX,
        startup_params().beta.equals(30, 100),
        startup_params().force_log2.equals(0, 1),
        startup_params().particle_radius == 3 * PX,
        startup_params().max_cell_scan == 400,
        startup_params().dt.den > 0 && startup_params().friction.den > 0,
        startup_params().beta.den > 0 && startup_params().force_log2.den > 0,
        startup_params().camera_x == 0 && startup_params().camera_y == 0,
{
}

/// At startup the world fills the window exactly, in both directions, and the grid's
/// cells are at least as wide as the interaction radius.
pub proof fn law_startup_view()
    ensures
        startup_params().half_width * startup_params().zoom == startup_params().screen_half_w * ZOOM_ONE,
        startup_params().half_height * startup_params().zoom == startup_params().screen_half_h
            * ZOOM_ONE,
        startup_params().max_radius <= startup_params().cell_size,
        startup_params().num_cells == startup_params().grid_cols * startup_params().grid_rows,
{
    lemma_startup_grid();
    let p = startup_params();
    assert(p.zoom == 524_288_000);
    assert(p.half_width * p.zoom == p.screen_half_w * ZOOM_ONE) by (nonlinear_arith)
        requires
            p.zoom == 524_288_000,
            p.half_width == 2048 * 16_777_216,
            p.screen_half_w == 640 * 16_777_216,
            ZOOM_ONE == 1_677_721_600,
    ;
    assert(p.half_height * p.zoom == p.screen_half_h * ZOOM_ONE) by (nonlinear_arith)
        requires
            p.zoom == 524_288_000,
            p.half_height == 1152 * 16_777_216,
            p.screen_half_h == 360 * 16_777_216,
            ZOOM_ONE == 1_677_721_600,
    ;
}

} // verus!
