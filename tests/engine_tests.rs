use cordic::engine::{reduce_angle, ATAN_TABLE_LEN, HALF_PI_RAW, PI_RAW, TWO_PI_RAW};
use cordic::fixed::ONE_RAW;
use cordic::{build_angle_table, cordic, gain_factor, rotate, CordicError, FixedPoint};

fn fx(v: f64) -> FixedPoint {
    FixedPoint::from_raw((v * ONE_RAW as f64).round() as i64)
}

fn to_f64(v: FixedPoint) -> f64 {
    v.raw() as f64 / ONE_RAW as f64
}

fn close_enough(a: FixedPoint, b: FixedPoint) -> bool {
    (a - b) < FixedPoint::from_raw(ONE_RAW / 100)
}

#[test]
fn basic() {
    for i in 0..157 {
        // pi/2
        let ret = cordic(fx(i as f64 / 100.0), 1000);
        let cos = fx((i as f64 / 100.0).cos());
        let sin = fx((i as f64 / 100.0).sin());

        println!(
            "Theta == {}\t{} vs {}\t{} vs {}",
            (i as f64 / 100.0),
            to_f64(ret[0]),
            to_f64(cos),
            to_f64(ret[1]),
            to_f64(sin)
        );

        assert!(close_enough(ret[0], cos));
        assert!(close_enough(ret[1], sin));
    }
}

#[test]
fn converges_over_a_full_turn() {
    for n in [20usize, 100, 1000] {
        for i in -315..=315 {
            let theta = i as f64 / 100.0;
            let r = cordic(fx(theta), n);
            assert!((to_f64(r[0]) - theta.cos()).abs() < 0.01, "cos {} {}", theta, n);
            assert!((to_f64(r[1]) - theta.sin()).abs() < 0.01, "sin {} {}", theta, n);
        }
    }
}

#[test]
fn converges_far_outside_a_turn() {
    for i in -1000..=1000 {
        let theta = i as f64 / 100.0;
        let r = cordic(fx(theta), 1000);
        assert!((to_f64(r[0]) - theta.cos()).abs() < 1e-3, "cos {}", theta);
        assert!((to_f64(r[1]) - theta.sin()).abs() < 1e-3, "sin {}", theta);
    }
}

#[test]
fn tight_tolerance_at_many_iterations() {
    for i in -314..=314 {
        let theta = i as f64 / 100.0;
        let r = cordic(fx(theta), 1000);
        assert!((to_f64(r[0]) - theta.cos()).abs() < 1e-3);
        assert!((to_f64(r[1]) - theta.sin()).abs() < 1e-3);
    }
}

#[test]
fn gain_factor_lies_in_unit_interval_and_shrinks() {
    assert_eq!(gain_factor(0).raw(), ONE_RAW);
    assert_eq!(gain_factor(1).raw(), ONE_RAW);
    let mut previous = gain_factor(1).raw();
    for n in 2..200usize {
        let k = gain_factor(n).raw();
        assert!(0 < k && k < ONE_RAW);
        assert!(k <= previous);
        previous = k;
    }
    assert!((to_f64(gain_factor(1000)) - 0.6072529).abs() < 1e-6);
}

#[test]
fn gain_factor_exact_values() {
    assert_eq!(gain_factor(2).raw(), 759250125);
    assert_eq!(gain_factor(3).raw(), 679093957);
    assert_eq!(gain_factor(17).raw(), 652032874);
    assert_eq!(gain_factor(usize::MAX).raw(), 652032874);
}

#[test]
fn angle_table_decreases_to_zero() {
    let t = build_angle_table(40);
    assert_eq!(t.len(), 41);
    for i in 0..40 {
        assert!(t[i].raw() >= 0);
        if t[i].raw() > 0 {
            assert!(t[i].raw() > t[i + 1].raw());
        }
    }
    for i in 31..41 {
        assert_eq!(t[i].raw(), 0);
    }
    for i in 0..ATAN_TABLE_LEN {
        let exact = (2f64.powi(-(i as i32))).atan();
        assert!((to_f64(t[i]) - exact).abs() < 1e-9);
    }
}

#[test]
fn angle_table_halves_past_stored_entries() {
    let t = build_angle_table(32);
    assert_eq!(t[0].raw(), 843314857);
    assert_eq!(t[ATAN_TABLE_LEN - 1].raw(), 128);
    assert_eq!(t[ATAN_TABLE_LEN].raw(), 64);
    assert_eq!(t[30].raw(), 1);
    assert_eq!(t[31].raw(), 0);
    assert_eq!(build_angle_table(0).len(), 1);
}

#[test]
fn zero_angle_tends_to_unit_x() {
    let mut previous = f64::INFINITY;
    for n in [2usize, 5, 10, 20, 40] {
        let r = cordic(fx(0.0), n);
        let err = (to_f64(r[0]) - 1.0).abs().max(to_f64(r[1]).abs());
        assert!(err < previous);
        previous = err;
    }
    assert!(previous < 1e-6);
}

#[test]
fn zero_iterations_give_unit_x() {
    let r = cordic(fx(1.0), 0);
    assert_eq!(r[0].raw(), ONE_RAW);
    assert_eq!(r[1].raw(), 0);
    let flipped = cordic(fx(3.0), 0);
    assert_eq!(flipped[0].raw(), -ONE_RAW);
    assert_eq!(flipped[1].raw(), 0);
}

#[test]
fn adding_two_pi_keeps_result() {
    for i in -700..700 {
        let theta = fx(i as f64 / 50.0);
        let shifted = theta + FixedPoint::from_raw(TWO_PI_RAW);
        for n in [20usize, 100] {
            assert_eq!(cordic(theta, n), cordic(shifted, n), "{}", i);
        }
    }
}

#[test]
fn adding_two_pi_keeps_result_at_minus_pi() {
    let theta = FixedPoint::from_raw(-PI_RAW);
    let shifted = theta + FixedPoint::from_raw(TWO_PI_RAW);
    assert_eq!(cordic(theta, 50), cordic(shifted, 50));
    let r = cordic(theta, 50);
    assert!((to_f64(r[0]) + 1.0).abs() < 1e-6);
}

#[test]
fn reduction_brings_angles_into_half_turn() {
    assert_eq!(reduce_angle(fx(3.0)), (fx(3.0) - FixedPoint::from_raw(PI_RAW), true));
    assert_eq!(reduce_angle(fx(-3.0)), (fx(-3.0) + FixedPoint::from_raw(PI_RAW), true));
    assert_eq!(reduce_angle(fx(1.0)), (fx(1.0), false));
    assert_eq!(reduce_angle(fx(-1.0) + FixedPoint::from_raw(TWO_PI_RAW)), (fx(-1.0), false));
    assert_eq!(reduce_angle(fx(7.0)), (fx(7.0) - FixedPoint::from_raw(TWO_PI_RAW), false));
    for i in -2000..2000 {
        let (r, _) = reduce_angle(fx(i as f64 / 100.0));
        assert!(r.raw().abs() <= HALF_PI_RAW);
    }
}

#[test]
fn magnitude_near_unity() {
    for n in [20usize, 100, 1000] {
        for i in -314..=314 {
            let r = cordic(fx(i as f64 / 100.0), n);
            let m = to_f64(r[0]).powi(2) + to_f64(r[1]).powi(2);
            assert!((m - 1.0).abs() < 1e-4);
        }
    }
}

#[test]
fn scenario_zero_angle() {
    let r = cordic(fx(0.0), 1000);
    assert!((to_f64(r[0]) - 1.0).abs() < 0.001);
    assert!(to_f64(r[1]).abs() < 0.001);
}

#[test]
fn scenario_half_pi() {
    let r = cordic(fx(1.5707963), 1000);
    assert!(to_f64(r[0]).abs() < 0.01);
    assert!((to_f64(r[1]) - 1.0).abs() < 0.01);
}

#[test]
fn scenario_pi() {
    let r = cordic(fx(3.14159265), 1000);
    assert!((to_f64(r[0]) + 1.0).abs() < 0.01);
    assert!(to_f64(r[1]).abs() < 0.01);
}

#[test]
fn scenario_single_iteration_is_coarse() {
    let r = cordic(fx(0.5), 1);
    assert_eq!(r[0].raw(), ONE_RAW);
    assert_eq!(r[1].raw(), ONE_RAW);
    let r2 = cordic(fx(0.5), 2);
    assert_eq!(r2[0].raw(), 1138875187);
    assert_eq!(r2[1].raw(), 379625062);
}

#[test]
fn one_radian_exact_raw_values() {
    assert_eq!(cordic(fx(1.0), 1000), [FixedPoint::from_raw(580145181), FixedPoint::from_raw(903522590)]);
    assert_eq!(cordic(fx(-1.0), 1000), [FixedPoint::from_raw(580145181), FixedPoint::from_raw(-903522590)]);
}

#[test]
fn rotate_refuses_zero_iterations() {
    assert_eq!(rotate(fx(0.5), 0), Err(CordicError::InvalidIterationCount));
}

#[test]
fn rotate_matches_cordic_otherwise() {
    assert_eq!(rotate(fx(0.5), 1), Ok(cordic(fx(0.5), 1)));
    assert_eq!(rotate(fx(1.0), 1000), Ok([FixedPoint::from_raw(580145181), FixedPoint::from_raw(903522590)]));
}

#[test]
fn magnitude_matches_one_plus_four_to_one_minus_n() {
    for n in 1..12usize {
        let expected = 1.0 + 4f64.powi(1 - n as i32);
        for i in -30..=30 {
            let r = cordic(fx(i as f64 / 10.0), n);
            let m = to_f64(r[0]).powi(2) + to_f64(r[1]).powi(2);
            assert!((m - expected).abs() <= 160.0 / ONE_RAW as f64, "{} {}", n, i);
        }
    }
    let r = cordic(fx(0.5), 1);
    assert_eq!(to_f64(r[0]).powi(2) + to_f64(r[1]).powi(2), 2.0);
}
