use particle_life::presets::{
    cohesive_gliders, fast_pairs, pair_partner, preset_matrix, slow_pairs, swarm_chase, tight_darts,
    triad_chasers, twin_worms, worm_train, PRESET_COUNT,
};
use particle_life::units::{HUNDREDTH, WEIGHT_ONE};

fn hundredths(matrix: &[i64]) -> Vec<i64> {
    matrix
        .iter()
        .map(|w| {
            assert_eq!(w % HUNDREDTH, 0);
            w / HUNDREDTH
        })
        .collect()
}

fn as_f32(w: i64) -> f32 {
    (w as f64 / WEIGHT_ONE as f64) as f32
}

#[test]
fn partners_of_the_first_types() {
    let partners: Vec<u32> = (0..6).map(pair_partner).collect();
    assert_eq!(partners, vec![1, 0, 3, 2, 5, 4]);
    assert_eq!(pair_partner(u32::MAX), u32::MAX - 1);
    assert_eq!(pair_partner(u32::MAX - 1), u32::MAX);
}

#[test]
fn partner_of_partner_is_self() {
    for a in 0..100 {
        assert_eq!(pair_partner(pair_partner(a)), a);
    }
}

#[test]
fn fast_pairs_of_four_types() {
    assert_eq!(
        hundredths(&fast_pairs(4)),
        vec![0, 95, 0, 0, -50, 0, 0, 0, 0, 0, 0, 95, 0, 0, -50, 0]
    );
}

#[test]
fn odd_type_out_has_no_partner() {
    assert_eq!(hundredths(&fast_pairs(3)), vec![0, 95, 0, -50, 0, 0, 0, 0, 0]);
    assert_eq!(hundredths(&swarm_chase(3)), vec![0, 95, 8, -60, 0, 8, 8, 8, 0]);
}

#[test]
fn slow_pairs_of_two_types() {
    assert_eq!(hundredths(&slow_pairs(2)), vec![0, 50, -15, 0]);
}

#[test]
fn cohesive_gliders_of_three_types() {
    assert_eq!(hundredths(&cohesive_gliders(3)), vec![35, 85, 0, -40, 35, 0, 0, 0, 35]);
}

#[test]
fn tight_darts_of_two_types() {
    assert_eq!(hundredths(&tight_darts(2)), vec![60, 90, -60, 60]);
}

#[test]
fn triad_chasers_of_six_types() {
    assert_eq!(
        hundredths(&triad_chasers(6)),
        vec![
            0, 85, -30, 0, 0, 0, //
            -30, 0, 85, 0, 0, 0, //
            85, -30, 0, 0, 0, 0, //
            0, 0, 0, 0, 85, -30, //
            0, 0, 0, -30, 0, 85, //
            0, 0, 0, 85, -30, 0, //
        ]
    );
}

#[test]
fn worm_train_of_four_types() {
    assert_eq!(
        hundredths(&worm_train(4)),
        vec![
            60, 75, -15, -15, //
            -35, 60, 75, -15, //
            -15, -35, 60, 75, //
            -15, -15, -35, 60, //
        ]
    );
}

#[test]
fn twin_worms_of_six_types() {
    assert_eq!(
        hundredths(&twin_worms(6)),
        vec![
            60, 75, -15, -15, -15, -15, //
            -35, 60, 75, -15, -15, -15, //
            -15, -35, 60, -15, -15, -15, //
            -15, -15, -15, 60, 75, -15, //
            -15, -15, -15, -35, 60, 75, //
            -15, -15, -15, -15, -35, 60, //
        ]
    );
}

#[test]
fn swarm_chase_of_six_types() {
    assert_eq!(
        hundredths(&swarm_chase(6)),
        vec![
            0, 95, 8, 8, 8, 8, //
            -60, 0, 8, 8, 8, 8, //
            8, 8, 0, 65, 8, 8, //
            8, 8, -30, 0, 8, 8, //
            8, 8, 8, 8, 0, 35, //
            8, 8, 8, 8, -10, 0, //
        ]
    );
}

#[test]
fn swarm_speeds_repeat_after_three_pairs() {
    let m = hundredths(&swarm_chase(8));
    assert_eq!(m[6 * 8 + 7], 95);
    assert_eq!(m[7 * 8 + 6], -60);
}

#[test]
fn weights_round_to_the_nearest_single() {
    let m = fast_pairs(2);
    assert_eq!(as_f32(m[1]), 0.95f32);
    assert_eq!(as_f32(m[2]), -0.5f32);
    let m = swarm_chase(6);
    assert_eq!(as_f32(m[2]), 0.08f32);
    assert_eq!(as_f32(m[15]), 0.65f32);
    let m = twin_worms(6);
    assert_eq!(as_f32(m[0]), 0.6f32);
    assert_eq!(as_f32(m[2]), -0.15f32);
}

#[test]
fn preset_matrix_goes_by_index() {
    assert_eq!(preset_matrix(0, 6), fast_pairs(6));
    assert_eq!(preset_matrix(1, 6), slow_pairs(6));
    assert_eq!(preset_matrix(2, 6), cohesive_gliders(6));
    assert_eq!(preset_matrix(3, 6), tight_darts(6));
    assert_eq!(preset_matrix(4, 6), triad_chasers(6));
    assert_eq!(preset_matrix(5, 6), worm_train(6));
    assert_eq!(preset_matrix(6, 6), twin_worms(6));
    assert_eq!(preset_matrix(7, 6), swarm_chase(6));
}

#[test]
fn preset_matrix_is_periodic() {
    for index in 0..PRESET_COUNT {
        assert_eq!(preset_matrix(index + PRESET_COUNT, 5), preset_matrix(index, 5));
    }
}

#[test]
fn every_unequal_pull_is_chase_and_flight() {
    let n = 6;
    for index in 0..PRESET_COUNT {
        let m = preset_matrix(index, n as u32);
        assert_eq!(m.len(), n * n);
        for a in 0..n {
            for b in 0..n {
                let (there, back) = (m[a * n + b], m[b * n + a]);
                assert!(there.abs() <= WEIGHT_ONE);
                if there > back {
                    assert!(there > 0 && back < 0);
                }
            }
        }
        assert!(m[1] > 0 && m[n] < 0);
    }
}

#[test]
fn no_types_and_one_type() {
    for index in 0..PRESET_COUNT {
        assert!(preset_matrix(index, 0).is_empty());
    }
    assert_eq!(hundredths(&preset_matrix(0, 1)), vec![0]);
    assert_eq!(hundredths(&preset_matrix(2, 1)), vec![35]);
    assert_eq!(hundredths(&preset_matrix(5, 1)), vec![60]);
}

#[test]
fn slow_pairs_are_gentler_than_fast_ones() {
    for (slow, fast) in slow_pairs(6).iter().zip(fast_pairs(6)) {
        assert_eq!(slow.signum(), fast.signum());
        assert!(slow.abs() < fast.abs() || fast == 0);
    }
}

#[test]
fn groups_are_independent() {
    for a in 0..6usize {
        for b in 0..6usize {
            let k = a * 6 + b;
            if a / 2 != b / 2 {
                for index in 0..4 {
                    assert_eq!(preset_matrix(index, 6)[k], 0);
                }
                assert_eq!(swarm_chase(6)[k], 8 * HUNDREDTH);
            }
            if a / 3 != b / 3 {
                assert_eq!(triad_chasers(6)[k], 0);
                assert_eq!(twin_worms(6)[k], -15 * HUNDREDTH);
            } else {
                assert_eq!(twin_worms(6)[k], worm_train(6)[k]);
            }
        }
    }
}

#[test]
fn worm_does_not_close() {
    let m = hundredths(&worm_train(6));
    assert_eq!((m[5], m[30]), (-15, -15));
}
