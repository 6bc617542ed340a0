//! The discrete skeleton on concrete values: embedding sizes, circulant row
//! lags, spectrum slots, and sampler dispatch.

use fractional::embedding::{circulant_row_lags, embedding_size, spectrum_slots, Slot};
use fractional::sampler::{motion_plan, noise_plan, MotionPlan, NoisePlan};

#[test]
fn embedding_size_small_targets() {
    assert_eq!(embedding_size(1), 2);
    assert_eq!(embedding_size(2), 4);
    assert_eq!(embedding_size(3), 4);
    assert_eq!(embedding_size(4), 8);
    assert_eq!(embedding_size(5), 8);
    assert_eq!(embedding_size(9), 16);
    assert_eq!(embedding_size(49), 128);
}

#[test]
fn embedding_size_is_power_of_two() {
    for n in 1..200usize {
        let m = embedding_size(n);
        assert!(m.is_power_of_two());
        assert!(m >= 2 * (n - 1));
        assert!(m >= n + 1);
        assert!(m == 2 || m / 2 < 2 * (n - 1) || m / 2 < n + 1);
    }
}

#[test]
fn circulant_row_of_eight() {
    assert_eq!(circulant_row_lags(8), vec![0, 1, 2, 3, 4, 3, 2, 1]);
}

#[test]
fn circulant_row_is_symmetric() {
    for m in [2usize, 4, 8, 64, 128] {
        let lags = circulant_row_lags(m);
        assert_eq!(lags.len(), m);
        assert_eq!(lags[0], 0);
        for j in 1..m {
            assert_eq!(lags[j], lags[m - j]);
        }
        for j in 0..=m / 2 {
            assert_eq!(lags[j], j);
        }
    }
}

#[test]
fn spectrum_slots_of_eight() {
    let slots = spectrum_slots(8);
    assert_eq!(
        slots,
        vec![
            Slot::Anchor { draw: 0 },
            Slot::Pair { draw_re: 1, draw_im: 2 },
            Slot::Pair { draw_re: 3, draw_im: 4 },
            Slot::Pair { draw_re: 5, draw_im: 6 },
            Slot::Anchor { draw: 7 },
            Slot::Mirror { source: 3 },
            Slot::Mirror { source: 2 },
            Slot::Mirror { source: 1 },
        ]
    );
}

#[test]
fn spectrum_slots_use_each_draw_once() {
    for m in [2usize, 4, 16, 128] {
        let slots = spectrum_slots(m);
        let mut used = vec![0usize; m];
        for slot in &slots {
            match *slot {
                Slot::Anchor { draw } => used[draw] += 1,
                Slot::Pair { draw_re, draw_im } => {
                    used[draw_re] += 1;
                    used[draw_im] += 1;
                }
                Slot::Mirror { source } => {
                    assert!(matches!(slots[source], Slot::Pair { .. }));
                }
            }
        }
        for d in 0..m {
            assert_eq!(used[d], 1);
        }
    }
}

#[test]
fn spectrum_mirrors_point_backwards() {
    for m in [4usize, 32, 256] {
        let slots = spectrum_slots(m);
        for k in 0..m {
            if let Slot::Mirror { source } = slots[k] {
                assert!(k > m / 2);
                assert_eq!(source, m - k);
                assert!(source < k);
            }
        }
    }
}

#[test]
fn noise_dispatch() {
    assert!(matches!(noise_plan(0), NoisePlan::Empty));
    assert!(matches!(noise_plan(1), NoisePlan::Single));
    match noise_plan(5) {
        NoisePlan::Embed { n, m } => {
            assert_eq!(n, 4);
            assert_eq!(m, 8);
        }
        _ => panic!("five points ask for an embedding"),
    }
    match noise_plan(50) {
        NoisePlan::Embed { n, m } => {
            assert_eq!(n, 49);
            assert_eq!(m, 128);
            assert!(m >= 50);
        }
        _ => panic!("fifty points ask for an embedding"),
    }
}

#[test]
fn motion_dispatch() {
    assert!(matches!(motion_plan(0), MotionPlan::Empty));
    assert!(matches!(motion_plan(1), MotionPlan::Origin));
    match motion_plan(5) {
        MotionPlan::Accumulate { increments } => assert_eq!(increments, 4),
        _ => panic!("five points ask for an accumulated path"),
    }
}
