//! What the graphics device is asked to hold and to run: the spatial grid for the
//! neighbour search, the sizes of the particle and grid buffers, which buffer is bound
//! where, and the compute passes of a frame.

use crate::random::{random_particles, Particle};
use crate::ui::UI_MAX_VERTICES;
use crate::units::{coord_ok, PX};
use rand::rngs::ThreadRng;
use vstd::prelude::*;

verus! {

/// Side of a cell of the spatial grid, 80 pixels. It must be at least the interaction
/// radius, so that the 3 by 3 neighbourhood of a cell covers that radius.
pub const CELL_SIZE: i64 = 80 * PX;

/// Compute invocations in a workgroup.
pub const WORKGROUP_SIZE: u32 = 64;

/// Bytes of a particle record: two positions, two velocities, a type and padding, of
/// four bytes each.
pub const PARTICLE_BYTES: u64 = 24;

/// Bytes of a counter, an index or a matrix weight.
pub const WORD_BYTES: u64 = 4;

/// Bytes of a vertex of the panel: two coordinates and four colour channels, of four
/// bytes each.
pub const UI_VERTEX_BYTES: u64 = 24;

/// The number of cells that cover `extent`.
pub open spec fn cells_needed(extent: int) -> int {
    if extent <= 0 {
        0
    } else {
        (extent + CELL_SIZE - 1) / (CELL_SIZE as int)
    }
}

/// The number of cells that cover `extent`.
pub fn cells_along(extent: i64) -> (r: u32)
    requires
        extent <= 0x100_0000_0000_0000,
    ensures
        r == cells_needed(extent as int),
{
    if extent <= 0 {
        0
    } else {
        ((extent + CELL_SIZE - 1) / CELL_SIZE) as u32
    }
}

/// Columns, rows and cells of the spatial grid.
#[derive(Clone, Copy, PartialEq, Eq, Structural, Debug)]
pub struct Grid {
    pub cols: u32,
    pub rows: u32,
    pub num_cells: u32,
}

/// The grid that covers a world with the given half-extents.
pub open spec fn grid_spec(half_w: int, half_h: int) -> Grid {
    let cols = cells_needed(2 * half_w);
    let rows = cells_needed(2 * half_h);
    Grid { cols: cols as u32, rows: rows as u32, num_cells: (cols * rows) as u32 }
}

/// The grid that covers a world with the given half-extents.
pub fn grid_for(half_w: i64, half_h: i64) -> (g: Grid)
    requires
        coord_ok(half_w as int),
        coord_ok(half_h as int),
        cells_needed(2 * half_w) * cells_needed(2 * half_h) <= u32::MAX,
    ensures
        g == grid_spec(half_w as int, half_h as int),
        g.num_cells == g.cols * g.rows,
{
    let cols: u32 = cells_along(half_w * 2);
    let rows: u32 = cells_along(half_h * 2);
    Grid { cols, rows, num_cells: cols * rows }
}

/// Sizes in bytes of the buffers of the simulation.
#[derive(Clone, Copy, PartialEq, Eq, Structural, Debug)]
pub struct BufferSizes {
    /// Each of the two particle buffers.
    pub particles: u64,
    /// The per-cell counts, and the per-cell offsets.
    pub cells: u64,
    /// The particle indices in cell order.
    pub sorted_indices: u64,
}

/// Sizes of the buffers for the given numbers of particles and cells. A buffer must
/// not be empty.
pub fn buffer_sizes(num_particles: u32, num_cells: u32) -> (b: BufferSizes)
    requires
        num_particles > 0,
        num_cells > 0,
    ensures
        b.particles == num_particles * PARTICLE_BYTES,
        b.cells == num_cells * WORD_BYTES,
        b.sorted_indices == num_particles * WORD_BYTES,
{
    BufferSizes {
        particles: num_particles as u64 * PARTICLE_BYTES,
        cells: num_cells as u64 * WORD_BYTES,
        sorted_indices: num_particles as u64 * WORD_BYTES,
    }
}

/// Size in bytes of the interaction matrix of `num_types` types.
pub fn matrix_buffer_size(num_types: u32) -> (size: u64)
    requires
        0 < num_types * num_types <= u32::MAX,
    ensures
        size == num_types * num_types * WORD_BYTES,
{
    let entries: u32 = num_types * num_types;
    entries as u64 * WORD_BYTES
}

/// Size in bytes of the panel's vertex buffer.
pub fn ui_buffer_size() -> (size: u64)
    ensures
        size == UI_MAX_VERTICES * UI_VERTEX_BYTES,
{
    UI_MAX_VERTICES as u64 * UI_VERTEX_BYTES
}

/// The particles, grid and buffer sizes of a simulation at startup.
pub struct ParticleResources {
    pub grid: Grid,
    pub sizes: BufferSizes,
    pub particles: Vec<Particle>,
}

/// Everything needed to run the simulation for a given world size and particle count.
pub fn build_particle_resources(
    rng: &mut ThreadRng,
    half_w: i64,
    half_h: i64,
    num_particles: u32,
    num_types: u32,
) -> (r: ParticleResources)
    requires
        0 < half_w,
        0 < half_h,
        coord_ok(half_w as int),
        coord_ok(half_h as int),
        cells_needed(2 * half_w) * cells_needed(2 * half_h) <= u32::MAX,
        num_particles > 0,
        num_types > 0,
    ensures
        r.grid == grid_spec(half_w as int, half_h as int),
        r.sizes.particles == num_particles * PARTICLE_BYTES,
        r.sizes.cells == r.grid.num_cells * WORD_BYTES,
        r.sizes.sorted_indices == num_particles * WORD_BYTES,
        r.particles.len() == num_particles,
        forall|i: int|
            0 <= i < num_particles ==> (#[trigger] r.particles[i]).scattered(
                num_types as int,
                half_w as int,
                half_h as int,
            ),
{
    let grid = grid_for(half_w, half_h);
    proof {
        assert(grid.cols * grid.rows > 0) by (nonlinear_arith)
            requires
                grid.cols > 0,
                grid.rows > 0,
        ;
    }
    let particles = random_particles(rng, num_particles, num_types, half_w, half_h);
    let sizes = buffer_sizes(num_particles, grid.num_cells);
    ParticleResources { grid, sizes, particles }
}

/// The buffers of the simulation.
#[derive(Clone, Copy, PartialEq, Eq, Structural, Debug)]
pub enum Buffer {
    Params,
    Matrix,
    ParticlesA,
    ParticlesB,
    CellCounts,
    CellOffsets,
    SortedIndices,
}

/// How a compute shader uses a binding.
#[derive(Clone, Copy, PartialEq, Eq, Structural, Debug)]
pub enum Access {
    Uniform,
    ReadOnly,
    ReadWrite,
}

/// The particle buffer that is read while bind group `group` is in use.
pub open spec fn source_buffer(group: int) -> Buffer {
    if group == 0 {
        Buffer::ParticlesA
    } else {
        Buffer::ParticlesB
    }
}

/// Position of the particles that are read among the compute bindings.
pub const PARTICLES_IN: usize = 2;

/// Position of the particles that are written among the compute bindings.
pub const PARTICLES_OUT: usize = 3;

/// The compute bindings of a bind group, by position.
pub open spec fn compute_binding_list(group: int) -> [Buffer; 7] {
    [
        Buffer::Params,
        Buffer::Matrix,
        source_buffer(group),
        source_buffer(1 - group),
        Buffer::CellCounts,
        Buffer::CellOffsets,
        Buffer::SortedIndices,
    ]
}

/// The compute bindings of a bind group, by position. Group 0 reads particles from the
/// first buffer and writes them to the second, group 1 the other way round.
pub fn compute_bindings(group: usize) -> (b: [Buffer; 7])
    requires
        group < 2,
    ensures
        b == compute_binding_list(group as int),
{
    let (input, output) = if group == 0 {
        (Buffer::ParticlesA, Buffer::ParticlesB)
    } else {
        (Buffer::ParticlesB, Buffer::ParticlesA)
    };
    [
        Buffer::Params,
        Buffer::Matrix,
        input,
        output,
        Buffer::CellCounts,
        Buffer::CellOffsets,
        Buffer::SortedIndices,
    ]
}

/// How the compute shaders use each position.
pub open spec fn compute_access_list() -> [Access; 7] {
    [
        Access::Uniform,
        Access::ReadOnly,
        Access::ReadOnly,
        Access::ReadWrite,
        Access::ReadWrite,
        Access::ReadWrite,
        Access::ReadWrite,
    ]
}

/// How the compute shaders use each position.
pub fn compute_access() -> (a: [Access; 7])
    ensures
        a == compute_access_list(),
{
    [
        Access::Uniform,
        Access::ReadOnly,
        Access::ReadOnly,
        Access::ReadWrite,
        Access::ReadWrite,
        Access::ReadWrite,
        Access::ReadWrite,
    ]
}

/// The render bindings of a bind group, by position.
pub open spec fn render_binding_list(group: int) -> [Buffer; 2] {
    [source_buffer(group), Buffer::Params]
}

/// The render bindings of a bind group, by position.
pub fn render_bindings(group: usize) -> (b: [Buffer; 2])
    requires
        group < 2,
    ensures
        b == render_binding_list(group as int),
{
    if group == 0 {
        [Buffer::ParticlesA, Buffer::Params]
    } else {
        [Buffer::ParticlesB, Buffer::Params]
    }
}

/// How the vertex shader of the particles uses each position of the render bindings.
pub open spec fn render_access_list() -> [Access; 2] {
    [Access::ReadOnly, Access::Uniform]
}

/// How the vertex shader of the particles uses each position of the render bindings.
pub fn render_access() -> (a: [Access; 2])
    ensures
        a == render_access_list(),
{
    [Access::ReadOnly, Access::Uniform]
}

/// The compute shaders.
#[derive(Clone, Copy, PartialEq, Eq, Structural, Debug)]
pub enum Stage {
    ClearCounts,
    CountParticles,
    PrefixSum,
    ScatterParticles,
    ComputeForces,
}

impl Stage {
    /// The name of the shader's entry point.
    pub open spec fn entry_point_name(self) -> Seq<char> {
        match self {
            Stage::ClearCounts => "clear_counts"@,
            Stage::CountParticles => "count_particles"@,
            Stage::PrefixSum => "prefix_sum"@,
            Stage::ScatterParticles => "scatter_particles"@,
            Stage::ComputeForces => "compute_forces"@,
        }
    }

    /// The name of the shader's entry point.
    pub fn entry_point(&self) -> (name: &'static str)
        ensures
            name@ == self.entry_point_name(),
    {
        match self {
            Stage::ClearCounts => "clear_counts",
            Stage::CountParticles => "count_particles",
            Stage::PrefixSum => "prefix_sum",
            Stage::ScatterParticles => "scatter_particles",
            Stage::ComputeForces => "compute_forces",
        }
    }
}

/// One compute pass of a frame.
#[derive(Clone, Copy, PartialEq, Eq, Structural, Debug)]
pub struct Pass {
    pub stage: Stage,
    pub workgroups: u32,
}

/// The workgroups that give each of `n` items an invocation.
pub open spec fn workgroups_needed(n: int) -> int {
    (n + WORKGROUP_SIZE - 1) / (WORKGROUP_SIZE as int)
}

/// The workgroups that give each of `n` items an invocation.
pub fn workgroups_for(n: u32) -> (r: u32)
    requires
        n + WORKGROUP_SIZE <= u32::MAX,
    ensures
        r == workgroups_needed(n as int),
{
    (n + WORKGROUP_SIZE - 1) / WORKGROUP_SIZE
}

/// The compute passes of a frame, in order: zero the per-cell histogram, count the
/// particles of each cell, turn counts into start offsets, zero the counts again to use
/// them as write cursors, scatter the particle indices into cell order, and let each
/// particle feel its neighbouring cells.
pub open spec fn pass_list(num_particles: int, num_cells: int) -> [Pass; 6] {
    let p = workgroups_needed(num_particles) as u32;
    let c = workgroups_needed(num_cells) as u32;
    [
        Pass { stage: Stage::ClearCounts, workgroups: c },
        Pass { stage: Stage::CountParticles, workgroups: p },
        Pass { stage: Stage::PrefixSum, workgroups: 1 },
        Pass { stage: Stage::ClearCounts, workgroups: c },
        Pass { stage: Stage::ScatterParticles, workgroups: p },
        Pass { stage: Stage::ComputeForces, workgroups: p },
    ]
}

/// The compute passes of a frame, in order.
pub fn dispatch_passes(num_particles: u32, num_cells: u32) -> (passes: [Pass; 6])
    requires
        num_particles + WORKGROUP_SIZE <= u32::MAX,
        num_cells + WORKGROUP_SIZE <= u32::MAX,
    ensures
        passes == pass_list(num_particles as int, num_cells as int),
{
    let p: u32 = workgroups_for(num_particles);
    let c: u32 = workgroups_for(num_cells);
    [
        Pass { stage: Stage::ClearCounts, workgroups: c },
        Pass { stage: Stage::CountParticles, workgroups: p },
        Pass { stage: Stage::PrefixSum, workgroups: 1 },
        Pass { stage: Stage::ClearCounts, workgroups: c },
        Pass { stage: Stage::ScatterParticles, workgroups: p },
        Pass { stage: Stage::ComputeForces, workgroups: p },
    ]
}

/// The workgroups cover all items, and one fewer would not.
pub proof fn law_workgroups_cover(n: int)
    requires
        0 <= n,
    ensures
        workgroups_needed(n) * WORKGROUP_SIZE >= n,
        n > 0 ==> (workgroups_needed(n) - 1) * WORKGROUP_SIZE < n,
        n == 0 ==> workgroups_needed(n) == 0,
{
}

/// The cells cover the extent, and one fewer would not.
pub proof fn law_cells_cover(extent: int)
    requires
        0 < extent,
    ensures
        cells_needed(extent) * CELL_SIZE >= extent,
        (cells_needed(extent) - 1) * CELL_SIZE < extent,
{
}

/// Where there is no extent, there are no cells.
pub proof fn law_no_extent_no_cells(extent: int)
    requires
        extent <= 0,
    ensures
        cells_needed(extent) == 0,
{
}

/// The grid has the fewest columns and rows of 80-pixel cells that cover the world, and a
/// cell for each column of each row.
pub proof fn law_grid_covers_the_world(half_w: int, half_h: int)
    requires
        0 < half_w,
        0 < half_h,
        coord_ok(half_w),
        coord_ok(half_h),
        cells_needed(2 * half_w) * cells_needed(2 * half_h) <= u32::MAX,
    ensures
        ({
            let g = grid_spec(half_w, half_h);
            &&& (g.cols - 1) * (80 * PX) < 2 * half_w <= g.cols * (80 * PX)
            &&& (g.rows - 1) * (80 * PX) < 2 * half_h <= g.rows * (80 * PX)
            &&& g.num_cells == g.cols * g.rows
        }),
{
    law_cells_cover(2 * half_w);
    law_cells_cover(2 * half_h);
    let (c, r) = (cells_needed(2 * half_w), cells_needed(2 * half_h));
    assert(0 <= c * r) by (nonlinear_arith)
        requires
            0 <= c,
            0 <= r,
    ;
}

/// The passes of a frame come in the order of a counting sort followed by the forces. Each
/// pass over the cells has an invocation for every cell, each pass over the particles one
/// for every particle, in workgroups of 64 and with no workgroup to spare; the prefix sum
/// has a single workgroup.
pub proof fn law_passes_are_a_counting_sort(num_particles: int, num_cells: int)
    requires
        0 <= num_particles <= u32::MAX - 64,
        0 <= num_cells <= u32::MAX - 64,
    ensures
        ({
            let p = pass_list(num_particles, num_cells);
            &&& p[0].stage == Stage::ClearCounts
            &&& p[1].stage == Stage::CountParticles
            &&& p[2].stage == Stage::PrefixSum
            &&& p[3].stage == Stage::ClearCounts
            &&& p[4].stage == Stage::ScatterParticles
            &&& p[5].stage == Stage::ComputeForces
            &&& num_cells <= 64 * p[0].workgroups < num_cells + 64
            &&& num_particles <= 64 * p[1].workgroups < num_particles + 64
            &&& p[2].workgroups == 1
            &&& p[3].workgroups == p[0].workgroups
            &&& p[4].workgroups == p[1].workgroups
            &&& p[5].workgroups == p[1].workgroups
        }),
{
    law_workgroups_cover(num_particles);
    law_workgroups_cover(num_cells);
}

/// The two bind groups differ only in which particle buffer is read and which is written:
/// every other position holds the same buffer in both.
pub proof fn law_bind_groups_differ_in_particles(group: int, i: int)
    requires
        0 <= group < 2,
        0 <= i < 7,
    ensures
        i != 2 && i != 3 ==> compute_binding_list(group)[i] == compute_binding_list(0)[i],
        compute_binding_list(group)[0] == Buffer::Params,
        compute_binding_list(group)[1] == Buffer::Matrix,
        compute_binding_list(group)[4] == Buffer::CellCounts,
        compute_binding_list(group)[5] == Buffer::CellOffsets,
        compute_binding_list(group)[6] == Buffer::SortedIndices,
        group == 0 <==> compute_binding_list(group)[2] == Buffer::ParticlesA,
        group == 1 <==> compute_binding_list(group)[2] == Buffer::ParticlesB,
        render_binding_list(group)[0] == compute_binding_list(group)[2],
        render_binding_list(group)[1] == Buffer::Params,
{
}

/// The shaders only read the parameters, the matrix and the particles of the last step;
/// whatever else is bound they write.
pub proof fn law_only_results_are_written(i: int)
    requires
        0 <= i < 7,
    ensures
        compute_access_list()[i] == Access::Uniform <==> compute_binding_list(0)[i] == Buffer::Params,
        compute_access_list()[i] == Access::ReadOnly <==> compute_binding_list(0)[i] == Buffer::Matrix
            || compute_binding_list(0)[i] == Buffer::ParticlesA,
        render_access_list()[0] == Access::ReadOnly,
        render_access_list()[1] == Access::Uniform,
{
}

/// The cell, counted from the world's edge at `-half`, that holds the coordinate `x`.
pub open spec fn cell_of(x: int, half: int) -> int {
    (x + half) / (CELL_SIZE as int)
}

/// Every coordinate of the world lies in one of the grid's cells.
pub proof fn law_world_is_in_grid(x: int, half: int)
    requires
        -half <= x < half,
    ensures
        0 <= cell_of(x, half) < cells_needed(2 * half),
{
}

/// Two coordinates of the world that are no further apart than a cell is wide lie in
/// the same cell or in adjacent ones, so the 3 by 3 neighbourhood covers every radius
/// up to the cell size. (Neighbours across the world's seam are not meant here.)
pub proof fn law_neighbourhood_covers_cell_size(x: int, y: int, half: int)
    requires
        -half <= x < half,
        -half <= y < half,
        -CELL_SIZE <= x - y <= CELL_SIZE,
    ensures
        -1 <= cell_of(x, half) - cell_of(y, half) <= 1,
{
}

/// No buffer is bound for writing together with another binding: in each bind group
/// the seven buffers differ.
pub proof fn law_bindings_do_not_alias(group: int, i: int, j: int)
    requires
        0 <= group < 2,
        0 <= i < j < 7,
    ensures
        compute_binding_list(group)[i] != compute_binding_list(group)[j],
{
}

/// What one bind group writes the other one reads, and the render group with the other
/// number draws exactly that buffer.
pub proof fn law_ping_pong(group: int)
    requires
        0 <= group < 2,
    ensures
        compute_binding_list(1 - group)[PARTICLES_IN as int] == compute_binding_list(
            group,
        )[PARTICLES_OUT as int],
        compute_binding_list(1 - group)[PARTICLES_OUT as int] == compute_binding_list(
            group,
        )[PARTICLES_IN as int],
        render_binding_list(1 - group)[0] == compute_binding_list(group)[PARTICLES_OUT as int],
        compute_access_list()[PARTICLES_IN as int] == Access::ReadOnly,
        compute_access_list()[PARTICLES_OUT as int] == Access::ReadWrite,
{
}

} // verus!
