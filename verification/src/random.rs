//! Random starting conditions: particles scattered over the world and random
//! interaction matrices. Randomness comes from the `rand` crate.

use crate::units::WEIGHT_ONE;
use rand::rngs::ThreadRng;
use vstd::prelude::*;

verus! {

/// The thread-local generator of the `rand` crate.
#[verifier::external_type_specification]
#[verifier::external_body]
pub struct ExThreadRng(rand::rngs::ThreadRng);

/// Calls `rand::Rng::gen_range` on the half-open range from `low` to `high`. The claim
/// is that the drawn number lies in that range, which `gen_range` demands to be
/// non-empty. Which number is drawn, and what becomes of the generator, is a matter of
/// chance and is left unsaid.
#[verifier::external_body]
fn draw(rng: &mut ThreadRng, low: i64, high: i64) -> (r: i64)
    requires
        low < high,
    ensures
        low <= r < high,
{
    rand::Rng::gen_range(rng, low..high)
}

/// A particle: position and velocity in length units, and its type.
#[derive(Clone, Copy, Debug)]
pub struct Particle {
    pub pos: [i64; 2],
    pub vel: [i64; 2],
    pub ptype: u32,
}

impl Particle {
    /// The particle rests inside the world and has one of the `num_types` types.
    pub open spec fn scattered(self, num_types: int, half_w: int, half_h: int) -> bool {
        &&& -half_w <= self.pos[0] < half_w
        &&& -half_h <= self.pos[1] < half_h
        &&& self.vel[0] == 0
        &&& self.vel[1] == 0
        &&& self.ptype < num_types
    }
}

/// A particle of type `ptype` at rest at `(x, y)`.
pub fn resting_particle(x: i64, y: i64, ptype: u32) -> (p: Particle)
    ensures
        p.pos[0] == x,
        p.pos[1] == y,
        p.vel[0] == 0,
        p.vel[1] == 0,
        p.ptype == ptype,
{
    Particle { pos: [x, y], vel: [0, 0], ptype }
}

/// A scattered particle does not move, and it is within the world's half-extents of the
/// middle: the lower edges belong to the world, the upper ones do not.
pub proof fn law_scattered_is_in_the_world(p: Particle, num_types: int, half_w: int, half_h: int)
    requires
        p.scattered(num_types, half_w, half_h),
    ensures
        0 <= p.pos[0] + half_w < 2 * half_w,
        0 <= p.pos[1] + half_h < 2 * half_h,
        p.vel[0] == 0 && p.vel[1] == 0,
        0 <= p.ptype < num_types,
{
}

/// `n` particles at rest, each at a random place of the world with the given
/// half-extents and of a random type.
pub fn random_particles(rng: &mut ThreadRng, n: u32, num_types: u32, half_w: i64, half_h: i64) -> (v: Vec<
    Particle,
>)
    requires
        n > 0 ==> num_types > 0 && half_w > 0 && half_h > 0,
    ensures
        v.len() == n,
        forall|i: int|
            0 <= i < n ==> (#[trigger] v[i]).scattered(num_types as int, half_w as int, half_h as int),
{
    let mut v: Vec<Particle> = Vec::new();
    let mut i: u32 = 0;
    while i < n
        invariant
            i <= n,
            n > 0 ==> num_types > 0 && half_w > 0 && half_h > 0,
            v.len() == i,
            forall|k: int|
                0 <= k < i ==> (#[trigger] v[k]).scattered(
                    num_types as int,
                    half_w as int,
                    half_h as int,
                ),
        decreases n - i,
    {
        let x: i64 = draw(rng, -half_w, half_w);
        let y: i64 = draw(rng, -half_h, half_h);
        let t: i64 = draw(rng, 0, num_types as i64);
        v.push(resting_particle(x, y, t as u32));
        i = i + 1;
    }
    v
}

/// Every weight of the matrix lies between -1 and 1.
pub open spec fn weights_ok(m: Seq<i64>) -> bool {
    forall|i: int| 0 <= i < m.len() ==> -WEIGHT_ONE <= #[trigger] m[i] <= WEIGHT_ONE
}

/// Every weight lies where random weights are drawn from: between -1 and 1, without 1
/// itself.
pub open spec fn weights_drawn(m: Seq<i64>) -> bool {
    forall|i: int| 0 <= i < m.len() ==> -WEIGHT_ONE <= #[trigger] m[i] < WEIGHT_ONE
}

/// A weight that can be drawn is at least -1 and below 1, and every such matrix is fit for
/// the simulation.
pub proof fn law_drawn_weights_are_weights(m: Seq<i64>, i: int)
    requires
        weights_drawn(m),
        0 <= i < m.len(),
    ensures
        weights_ok(m),
        0 <= m[i] + WEIGHT_ONE < 2 * WEIGHT_ONE,
{
}

/// A random interaction matrix for `num_types` types, with weights from -1 up to, but
/// not including, 1.
pub fn random_matrix(rng: &mut ThreadRng, num_types: u32) -> (m: Vec<i64>)
    requires
        num_types * num_types <= u32::MAX,
    ensures
        m.len() == num_types * num_types,
        weights_drawn(m@),
{
    let total: u32 = num_types * num_types;
    let mut m: Vec<i64> = Vec::new();
    let mut i: u32 = 0;
    while i < total
        invariant
            i <= total,
            m.len() == i,
            weights_drawn(m@),
        decreases total - i,
    {
        m.push(draw(rng, -WEIGHT_ONE, WEIGHT_ONE));
        i = i + 1;
    }
    m
}

} // verus!
