//! Interaction-matrix presets. All are built around asymmetric attraction: a type
//! chases another type that flees from it. That asymmetry is what makes a bonded
//! group propel itself and drift across the screen instead of settling into a
//! static cluster, so every preset produces gliders of one flavour or another.
//!
//! A matrix is stored row by row: entry `a * n + b` is the pull of type `a`
//! towards type `b`. Presets are written down in hundredths.

use crate::units::{lemma_entry_position, HUNDREDTH, WEIGHT_ONE};
use vstd::arithmetic::div_mod::lemma_fundamental_div_mod_converse;
use vstd::prelude::*;

verus! {

pub const PRESET_COUNT: usize = 8;

/// The other member of the pair (0-1, 2-3, 4-5, ...) that holds `a`.
pub open spec fn partner(a: int) -> int {
    if a % 2 == 0 {
        a + 1
    } else {
        a - 1
    }
}

/// `a` and `b` are the two members of a pair that fits into `n` types.
pub open spec fn paired(n: int, a: int, b: int) -> bool {
    b == partner(a) && b < n
}

/// Pairs that chase and flee, with the pull `own` of a type towards itself.
pub open spec fn pair_entry(own: int, chase: int, flee: int, n: int, a: int, b: int) -> int {
    if a == b {
        own
    } else if paired(n, a, b) {
        if a % 2 == 0 {
            chase
        } else {
            flee
        }
    } else {
        0
    }
}

/// In each group of three, the pull towards the next type round the group and the
/// push from the one before it.
pub open spec fn triad_entry(a: int, b: int) -> int {
    if a == b || a / 3 != b / 3 {
        0
    } else if b % 3 == (a + 1) % 3 {
        85
    } else {
        -30
    }
}

/// One open chain through all types.
pub open spec fn worm_entry(a: int, b: int) -> int {
    if a == b {
        60
    } else if b == a + 1 {
        75
    } else if a == b + 1 {
        -35
    } else {
        -15
    }
}

/// An open chain inside each group of three.
pub open spec fn twin_entry(a: int, b: int) -> int {
    if a == b || a / 3 == b / 3 {
        worm_entry(a, b)
    } else {
        -15
    }
}

/// Pairs at three different speeds, and a weak pull between all other types.
pub open spec fn swarm_entry(n: int, a: int, b: int) -> int {
    if a == b {
        0
    } else if !paired(n, a, b) {
        8
    } else if a % 2 == 0 {
        if (a / 2) % 3 == 0 {
            95
        } else if (a / 2) % 3 == 1 {
            65
        } else {
            35
        }
    } else {
        if (a / 2) % 3 == 0 {
            -60
        } else if (a / 2) % 3 == 1 {
            -30
        } else {
            -10
        }
    }
}

/// The pull, in hundredths, of type `a` towards type `b` in preset `index` with `n`
/// types. Presets repeat with period [`PRESET_COUNT`].
pub open spec fn preset_entry(index: int, n: int, a: int, b: int) -> int {
    let k = index % 8;
    if k == 0 {
        pair_entry(0, 95, -50, n, a, b)
    } else if k == 1 {
        pair_entry(0, 50, -15, n, a, b)
    } else if k == 2 {
        pair_entry(35, 85, -40, n, a, b)
    } else if k == 3 {
        pair_entry(60, 90, -60, n, a, b)
    } else if k == 4 {
        triad_entry(a, b)
    } else if k == 5 {
        worm_entry(a, b)
    } else if k == 6 {
        twin_entry(a, b)
    } else {
        swarm_entry(n, a, b)
    }
}

/// The `n` by `n` matrix, row by row, of the weights whose hundredths `entry` gives.
pub open spec fn weight_table(n: int, entry: spec_fn(int, int) -> int) -> Seq<i64> {
    Seq::new((n * n) as nat, |i: int| (HUNDREDTH * entry(i / n, i % n)) as i64)
}

/// The matrix of preset `index` with `n` types.
pub open spec fn preset_table(index: int, n: int) -> Seq<i64> {
    weight_table(n, |a: int, b: int| preset_entry(index, n, a, b))
}

/// The other member of the pair that holds `a`.
pub fn pair_partner(a: u32) -> (r: u32)
    ensures
        r == partner(a as int),
{
    if a % 2 == 0 {
        a + 1
    } else {
        a - 1
    }
}

/// The weight of a pairing preset.
fn pair_weight(own: i64, chase: i64, flee: i64, n: u32, a: u32, b: u32) -> (w: i64)
    requires
        -100 <= own <= 100,
        -100 <= chase <= 100,
        -100 <= flee <= 100,
        a < n,
        b < n,
    ensures
        w == HUNDREDTH * pair_entry(own as int, chase as int, flee as int, n as int, a as int, b as int),
{
    if a == b {
        return own * HUNDREDTH;
    }
    let partner: u32 = pair_partner(a);
    if partner >= n || b != partner {
        return 0;
    }
    if a % 2 == 0 {
        chase * HUNDREDTH
    } else {
        flee * HUNDREDTH
    }
}

/// The weight of the triad preset.
fn triad_weight(a: u32, b: u32) -> (w: i64)
    ensures
        w == HUNDREDTH * triad_entry(a as int, b as int),
{
    if a == b {
        return 0;
    }
    let group: u64 = (a as u64 / 3) * 3;
    let pos: u64 = a as u64 % 3;
    let next: u64 = group + (pos + 1) % 3;
    let prev: u64 = group + (pos + 2) % 3;
    if b as u64 == next {
        85 * HUNDREDTH
    } else if b as u64 == prev {
        -30 * HUNDREDTH
    } else {
        0
    }
}

/// The weight of the single-worm preset.
fn worm_weight(a: u32, b: u32) -> (w: i64)
    ensures
        w == HUNDREDTH * worm_entry(a as int, b as int),
{
    let a: i64 = a as i64;
    let b: i64 = b as i64;
    if a == b {
        60 * HUNDREDTH
    } else if b == a + 1 {
        75 * HUNDREDTH
    } else if a == b + 1 {
        -35 * HUNDREDTH
    } else {
        -15 * HUNDREDTH
    }
}

/// The weight of the two-worm preset.
fn twin_weight(a: u32, b: u32) -> (w: i64)
    ensures
        w == HUNDREDTH * twin_entry(a as int, b as int),
{
    if a == b {
        return 60 * HUNDREDTH;
    }
    let group: u32 = a / 3;
    let pos: u32 = a % 3;
    let same_group: bool = b / 3 == group;
    if same_group && pos < 2 && b as u64 == a as u64 + 1 {
        75 * HUNDREDTH
    } else if same_group && pos > 0 && a as u64 == b as u64 + 1 {
        -35 * HUNDREDTH
    } else {
        -15 * HUNDREDTH
    }
}

/// The weight of the swarm preset.
fn swarm_weight(n: u32, a: u32, b: u32) -> (w: i64)
    requires
        a < n,
        b < n,
    ensures
        w == HUNDREDTH * swarm_entry(n as int, a as int, b as int),
{
    if a == b {
        return 0;
    }
    let partner: u32 = pair_partner(a);
    if partner < n && b == partner {
        let speed: u32 = (a / 2) % 3;
        let chase: i64 = if speed == 0 {
            95
        } else if speed == 1 {
            65
        } else {
            35
        };
        let flee: i64 = if speed == 0 {
            -60
        } else if speed == 1 {
            -30
        } else {
            -10
        };
        if a % 2 == 0 {
            chase * HUNDREDTH
        } else {
            flee * HUNDREDTH
        }
    } else {
        8 * HUNDREDTH
    }
}

/// The weight of type `a` towards type `b` in preset `index`.
fn preset_weight(index: usize, n: u32, a: u32, b: u32) -> (w: i64)
    requires
        a < n,
        b < n,
    ensures
        w == HUNDREDTH * preset_entry(index as int, n as int, a as int, b as int),
{
    match index % PRESET_COUNT {
        0 => pair_weight(0, 95, -50, n, a, b),
        1 => pair_weight(0, 50, -15, n, a, b),
        2 => pair_weight(35, 85, -40, n, a, b),
        3 => pair_weight(60, 90, -60, n, a, b),
        4 => triad_weight(a, b),
        5 => worm_weight(a, b),
        6 => twin_weight(a, b),
        _ => swarm_weight(n, a, b),
    }
}

/// Fills the `n` by `n` matrix of preset `index`, row by row.
fn tabulate(index: usize, n: u32) -> (v: Vec<i64>)
    requires
        n * n <= u32::MAX,
    ensures
        v@ == preset_table(index as int, n as int),
{
    let mut v: Vec<i64> = Vec::new();
    let total: u32 = n * n;
    let mut idx: u32 = 0;
    while idx < total
        invariant
            idx <= total,
            total == n * n,
            v.len() == idx,
            forall|i: int| 0 <= i < idx ==> #[trigger] v[i] == preset_table(index as int, n as int)[i],
        decreases total - idx,
    {
        proof {
            lemma_entry_position(idx as int, n as int);
        }
        let w: i64 = preset_weight(index, n, idx / n, idx % n);
        v.push(w);
        idx = idx + 1;
    }
    v
}

/// Three independent pairs (0-1, 2-3, 4-5), strong chase and strong flight: small,
/// fast-moving gliders.
pub fn fast_pairs(n: u32) -> (v: Vec<i64>)
    requires
        n * n <= u32::MAX,
    ensures
        v@ == preset_table(0, n as int),
{
    tabulate(0, n)
}

/// The pairing of [`fast_pairs`] with gentler asymmetry: slower, more graceful
/// drifting gliders.
pub fn slow_pairs(n: u32) -> (v: Vec<i64>)
    requires
        n * n <= u32::MAX,
    ensures
        v@ == preset_table(1, n as int),
{
    tabulate(1, n)
}

/// Pairs with added self-attraction, so that each glider stays a tight, solid blob
/// while it drifts rather than a loose diffuse pair.
pub fn cohesive_gliders(n: u32) -> (v: Vec<i64>)
    requires
        n * n <= u32::MAX,
    ensures
        v@ == preset_table(2, n as int),
{
    tabulate(2, n)
}

/// Pairs with strong self-cohesion and strong asymmetry: compact, dense,
/// fast-darting gliders rather than loose clouds.
pub fn tight_darts(n: u32) -> (v: Vec<i64>)
    requires
        n * n <= u32::MAX,
    ensures
        v@ == preset_table(3, n as int),
{
    tabulate(3, n)
}

/// Independent groups of three (0-1-2, 3-4-5, ...), each cycling A chases B chases
/// C chases A: the asymmetric triangle does not cancel out, so each trio spins and
/// drifts together as a small orbiting cluster.
pub fn triad_chasers(n: u32) -> (v: Vec<i64>)
    requires
        n * n <= u32::MAX,
    ensures
        v@ == preset_table(4, n as int),
{
    tabulate(4, n)
}

/// One open (non-wrapping) chain across all types. Strong self-cohesion makes each
/// type a thick, solid segment; segments pull the next one forward and push off the
/// previous one, and a mild repulsion between all other pairings keeps segments that
/// are not adjacent from merging.
pub fn worm_train(n: u32) -> (v: Vec<i64>)
    requires
        n * n <= u32::MAX,
    ensures
        v@ == preset_table(5, n as int),
{
    tabulate(5, n)
}

/// The recipe of [`worm_train`], split into independent open chains of three (0-1-2
/// and 3-4-5): two large worms instead of one.
pub fn twin_worms(n: u32) -> (v: Vec<i64>)
    requires
        n * n <= u32::MAX,
    ensures
        v@ == preset_table(6, n as int),
{
    tabulate(6, n)
}

/// Three pairs at three different speeds (fast, medium, slow), with a weak universal
/// attraction so that the three gliders loosely stay near each other.
pub fn swarm_chase(n: u32) -> (v: Vec<i64>)
    requires
        n * n <= u32::MAX,
    ensures
        v@ == preset_table(7, n as int),
{
    tabulate(7, n)
}

/// The matrix of preset `index` for `num_types` types; the index is taken modulo
/// [`PRESET_COUNT`].
pub fn preset_matrix(index: usize, num_types: u32) -> (v: Vec<i64>)
    requires
        num_types * num_types <= u32::MAX,
    ensures
        v@ == preset_table(index as int, num_types as int),
{
    let v: Vec<i64> = match index % PRESET_COUNT {
        0 => fast_pairs(num_types),
        1 => slow_pairs(num_types),
        2 => cohesive_gliders(num_types),
        3 => tight_darts(num_types),
        4 => triad_chasers(num_types),
        5 => worm_train(num_types),
        6 => twin_worms(num_types),
        _ => swarm_chase(num_types),
    };
    proof {
        assert forall|a: int, b: int|
            preset_entry(index as int, num_types as int, a, b) == #[trigger] preset_entry(
                index as int % 8,
                num_types as int,
                a,
                b,
            ) by {}
        assert(preset_table(index as int, num_types as int) =~= preset_table(
            index as int % 8,
            num_types as int,
        ));
    }
    v
}

/// Entry `a * n + b` of a preset's matrix is the pull of type `a` towards type `b`.
pub proof fn law_table_is_row_major(index: int, n: int, a: int, b: int)
    requires
        0 <= a < n,
        0 <= b < n,
    ensures
        0 <= a * n + b < preset_table(index, n).len(),
        preset_table(index, n)[a * n + b] == HUNDREDTH * preset_entry(index, n, a, b),
{
    assert(0 <= a * n + b < n * n) by (nonlinear_arith)
        requires
            0 <= a < n,
            0 <= b < n,
    ;
    assert(a * n + b == n * a + b) by (nonlinear_arith);
    lemma_fundamental_div_mod_converse(a * n + b, n, a, b);
    law_entries_are_weights(index, n, a, b);
}

/// Every entry of every preset is a weight between -1 and 1.
pub proof fn law_entries_are_weights(index: int, n: int, a: int, b: int)
    ensures
        -60 <= preset_entry(index, n, a, b) <= 95,
        -WEIGHT_ONE <= HUNDREDTH * preset_entry(index, n, a, b) <= WEIGHT_ONE,
{
}

/// Every weight of a preset's matrix lies between -1 and 1, and there is one for
/// each ordered pair of types.
pub proof fn law_table_in_range(index: int, n: int)
    requires
        0 <= n,
    ensures
        preset_table(index, n).len() == n * n,
        forall|i: int|
            0 <= i < n * n ==> -WEIGHT_ONE <= #[trigger] preset_table(index, n)[i] <= WEIGHT_ONE,
{
    assert(0 <= n * n) by (nonlinear_arith);
    assert forall|i: int| 0 <= i < n * n implies -WEIGHT_ONE <= #[trigger] preset_table(
        index,
        n,
    )[i] <= WEIGHT_ONE by {
        law_entries_are_weights(index, n, i / n, i % n);
    }
}

/// Pairing is symmetric: the partner's partner is the type itself, and the two are
/// different types of the same pair.
pub proof fn law_partner_involution(a: int)
    requires
        0 <= a,
    ensures
        partner(partner(a)) == a,
        partner(a) != a,
        partner(a) >= 0,
        partner(a) / 2 == a / 2,
{
}

/// Attraction is asymmetric: wherever two types pull on each other with different
/// strength, one chases and the other flees.
pub proof fn law_unequal_pull_is_chase_and_flight(index: int, n: int, a: int, b: int)
    requires
        0 <= a < n,
        0 <= b < n,
        preset_entry(index, n, a, b) > preset_entry(index, n, b, a),
    ensures
        preset_entry(index, n, a, b) > 0,
        preset_entry(index, n, b, a) < 0,
{
    law_partner_involution(a);
    law_partner_involution(b);
}

/// No chase is returned: a type that another one pulls on with more than the weak
/// universal attraction of the swarm pushes that one away.
pub proof fn law_chase_is_not_returned(index: int, n: int, a: int, b: int)
    requires
        0 <= a < n,
        0 <= b < n,
        a != b,
        preset_entry(index, n, a, b) > 8,
    ensures
        preset_entry(index, n, b, a) < 0,
{
    law_partner_involution(a);
    law_partner_involution(b);
}

/// Every preset with at least two types has a chase: type 0 chases type 1, which
/// flees.
pub proof fn law_every_preset_has_a_chase(index: int, n: int)
    requires
        2 <= n,
    ensures
        preset_entry(index, n, 0, 1) > 0,
        preset_entry(index, n, 1, 0) < 0,
{
}

/// In the four pairing presets, types of different pairs do not act on each other.
pub proof fn law_pairs_are_independent(index: int, n: int, a: int, b: int)
    requires
        0 <= a < n,
        0 <= b < n,
        index % 8 < 4,
        a / 2 != b / 2,
    ensures
        preset_entry(index, n, a, b) == 0,
{
    law_partner_involution(a);
}

/// The slow pairs act on each other exactly where the fast pairs do, in the same
/// direction and more gently.
pub proof fn law_slow_pairs_are_gentler(n: int, a: int, b: int)
    requires
        0 <= a < n,
        0 <= b < n,
    ensures
        preset_entry(0, n, a, b) > 0 ==> 0 < preset_entry(1, n, a, b) < preset_entry(0, n, a, b),
        preset_entry(0, n, a, b) < 0 ==> preset_entry(0, n, a, b) < preset_entry(1, n, a, b) < 0,
        preset_entry(0, n, a, b) == 0 ==> preset_entry(1, n, a, b) == 0,
{
}

/// Cohesive gliders and tight darts attract their own type; fast and slow pairs do
/// not act on it.
pub proof fn law_self_attraction_of_pairs(n: int, a: int)
    ensures
        preset_entry(0, n, a, a) == 0,
        preset_entry(1, n, a, a) == 0,
        0 < preset_entry(2, n, a, a) < preset_entry(3, n, a, a),
{
}

/// Triads are independent of each other, and inside a triad the chase goes round:
/// the first type chases the second, the second the third, the third the first.
pub proof fn law_triads_are_cycles(n: int, a: int, b: int)
    requires
        0 <= a < n,
        0 <= b < n,
    ensures
        a / 3 != b / 3 ==> preset_entry(4, n, a, b) == 0,
        a % 3 == 0 && b == a + 1 ==> preset_entry(4, n, a, b) > 0,
        a % 3 == 1 && b == a + 1 ==> preset_entry(4, n, a, b) > 0,
        a % 3 == 2 && b == a - 2 ==> preset_entry(4, n, a, b) > 0,
        preset_entry(4, n, a, b) > 0 ==> preset_entry(4, n, b, a) < 0,
{
}

/// The worm is an open chain: neighbours pull forward and push back, everything else
/// is pushed away mildly, and the chain does not close from the last type to the
/// first.
pub proof fn law_worm_is_open(n: int, a: int, b: int)
    requires
        0 <= a < n,
        0 <= b < n,
    ensures
        preset_entry(5, n, a, a) == 60,
        b == a + 1 ==> preset_entry(5, n, a, b) == 75 && preset_entry(5, n, b, a) == -35,
        a != b && b != a + 1 && a != b + 1 ==> preset_entry(5, n, a, b) == -15,
        n > 2 ==> preset_entry(5, n, n - 1, 0) == -15 && preset_entry(5, n, 0, n - 1) == -15,
{
}

/// The twin worms follow the worm's recipe inside each group of three, and push each
/// other away mildly.
pub proof fn law_twin_worms_are_independent(n: int, a: int, b: int)
    requires
        0 <= a < n,
        0 <= b < n,
    ensures
        a / 3 == b / 3 ==> preset_entry(6, n, a, b) == preset_entry(5, n, a, b),
        a / 3 != b / 3 ==> preset_entry(6, n, a, b) == -15,
{
}

/// The swarm's pairs 0-1, 2-3 and 4-5 are fast, medium and slow, and any two types
/// of different pairs attract each other weakly.
pub proof fn law_swarm_speeds(n: int, a: int, b: int)
    requires
        0 <= a < n,
        0 <= b < n,
    ensures
        n >= 6 ==> preset_entry(7, n, 0, 1) > preset_entry(7, n, 2, 3) && preset_entry(7, n, 2, 3)
            > preset_entry(7, n, 4, 5) && preset_entry(7, n, 4, 5) > 0,
        n >= 6 ==> preset_entry(7, n, 1, 0) < preset_entry(7, n, 3, 2) && preset_entry(7, n, 3, 2)
            < preset_entry(7, n, 5, 4) && preset_entry(7, n, 5, 4) < 0,
        a / 2 != b / 2 ==> preset_entry(7, n, a, b) == 8,
{
    law_partner_involution(a);
}

/// The strengths of the four pairing presets, in hundredths: pull of a type towards
/// itself, chase and flight. Every pair 0-1, 2-3, 4-5 and so on behaves alike.
pub proof fn law_all_pairs_behave_alike(index: int, n: int, a: int)
    requires
        0 <= a < n,
        index % 8 < 4,
    ensures
        ({
            let k = index % 8;
            let own = preset_entry(index, n, a, a);
            &&& k == 0 ==> own == 0
            &&& k == 1 ==> own == 0
            &&& k == 2 ==> own == 35
            &&& k == 3 ==> own == 60
            &&& a % 2 == 0 && a + 1 < n ==> {
                let chase = preset_entry(index, n, a, a + 1);
                let flight = preset_entry(index, n, a + 1, a);
                &&& k == 0 ==> chase == 95 && flight == -50
                &&& k == 1 ==> chase == 50 && flight == -15
                &&& k == 2 ==> chase == 85 && flight == -40
                &&& k == 3 ==> chase == 90 && flight == -60
                &&& chase == preset_entry(index, n, 0, 1)
                &&& flight == preset_entry(index, n, 1, 0)
            }
        }),
{
}

/// The strengths of the triads, in hundredths: in every group of three each type pulls
/// towards the next one round the group with 85 and pushes the one before it with 30,
/// and it does not act on itself.
pub proof fn law_all_triads_behave_alike(index: int, n: int, g: int)
    requires
        index % 8 == 4,
        0 <= g,
        g % 3 == 0,
    ensures
        preset_entry(index, n, g, g + 1) == 85,
        preset_entry(index, n, g + 1, g + 2) == 85,
        preset_entry(index, n, g + 2, g) == 85,
        preset_entry(index, n, g + 1, g) == -30,
        preset_entry(index, n, g + 2, g + 1) == -30,
        preset_entry(index, n, g, g + 2) == -30,
        preset_entry(index, n, g, g) == 0,
        preset_entry(index, n, g + 1, g + 1) == 0,
        preset_entry(index, n, g + 2, g + 2) == 0,
{
}

/// The strengths of the swarm's pairs, in hundredths. The three speeds take turns along
/// the pairs, and no type acts on itself.
pub proof fn law_swarm_pairs_take_turns(index: int, n: int, a: int)
    requires
        index % 8 == 7,
        0 <= a < n,
    ensures
        preset_entry(index, n, a, a) == 0,
        a % 6 == 0 && a + 1 < n ==> preset_entry(index, n, a, a + 1) == 95 && preset_entry(
            index,
            n,
            a + 1,
            a,
        ) == -60,
        a % 6 == 2 && a + 1 < n ==> preset_entry(index, n, a, a + 1) == 65 && preset_entry(
            index,
            n,
            a + 1,
            a,
        ) == -30,
        a % 6 == 4 && a + 1 < n ==> preset_entry(index, n, a, a + 1) == 35 && preset_entry(
            index,
            n,
            a + 1,
            a,
        ) == -10,
{
}

/// The matrix of a preset holds its strengths as weights: a strength of 100 hundredths
/// would be the weight 1.
pub proof fn law_table_holds_hundredths(index: int, n: int, a: int, b: int)
    requires
        0 <= a < n,
        0 <= b < n,
    ensures
        100 * preset_table(index, n)[a * n + b] == WEIGHT_ONE * preset_entry(index, n, a, b),
{
    law_table_is_row_major(index, n, a, b);
}

/// The strength between two types goes by the preset's number modulo eight.
pub proof fn law_entries_are_periodic(index: int, n: int, a: int, b: int)
    ensures
        preset_entry(index + PRESET_COUNT, n, a, b) == preset_entry(index, n, a, b),
{
}

/// Presets repeat with period [`PRESET_COUNT`].
pub proof fn law_presets_are_periodic(index: int, n: int)
    requires
        0 <= n,
    ensures
        preset_table(index + PRESET_COUNT, n) == preset_table(index, n),
{
    assert((index + 8) % 8 == index % 8);
    assert(preset_table(index + 8, n) =~= preset_table(index, n));
}

} // verus!
