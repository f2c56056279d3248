use mossd::fan_curve::{FanCurve, FanCurveInfo, FanMode};
use mossd::hysteresis_curve::HysteresisCurve;
use mossd::linear_curve::{linear_interpolation, LinearCurve};

#[test]
fn linear_interpolation_between_points() {
    let mut curve = LinearCurve::new(&[(40, 30), (60, 70)]);
    assert_eq!(curve.get_speed(50), 50);
    assert_eq!(curve.get_speed(39), 30);
    assert_eq!(curve.get_speed(61), 70);
}

#[test]
fn exact_point_is_returned() {
    let mut curve = LinearCurve::new(&[(40, 30), (60, 70)]);
    assert_eq!(curve.get_speed(40), 30);
    assert_eq!(curve.get_speed(60), 70);
}

#[test]
fn empty_curve_is_full_speed() {
    let mut curve = LinearCurve::new(&[]);
    assert_eq!(curve.points_num(), 0);
    assert_eq!(curve.get_speed(-20), 100);
    assert_eq!(curve.get_speed(45), 100);
}

#[test]
fn interpolation_rounds_to_nearest() {
    assert_eq!(linear_interpolation((0, 0), (3, 10), 1), 3);
    assert_eq!(linear_interpolation((0, 0), (3, 10), 2), 7);
    assert_eq!(linear_interpolation((0, 100), (10, 0), 5), 50);
    assert_eq!(linear_interpolation((0, 0), (2, 1), 1), 1);
}

#[test]
fn interpolation_at_extreme_temperatures() {
    assert_eq!(linear_interpolation((i32::MIN, 0), (i32::MAX, 100), 0), 50);
    let mut curve = LinearCurve::new(&[(20, 10), (80, 90)]);
    assert_eq!(curve.get_speed(i32::MIN), 10);
    assert_eq!(curve.get_speed(i32::MAX), 90);
}

#[test]
fn speeds_stay_in_percent_range() {
    let mut curve = LinearCurve::new(&[(-10, 0), (30, 255), (90, 100)]);
    for t in [-1000, -10, 0, 10, 29, 30, 31, 60, 90, 1000] {
        let s = curve.get_speed(t);
        assert!(s <= 100, "speed {} at {}", s, t);
    }
}

#[test]
fn points_are_clamped_and_replaced() {
    let mut curve = LinearCurve::new(&[(50, 250)]);
    assert_eq!(curve.get_speed(50), 100);
    curve.add_point((50, 40));
    assert_eq!(curve.points_num(), 1);
    assert_eq!(curve.get_speed(50), 40);
    curve.update_point((70, 80));
    assert_eq!(curve.points_num(), 2);
    assert_eq!(curve.get_speed(60), 60);
    assert_eq!(curve.points_list(), vec![(50, 40), (70, 80)]);
}

#[test]
fn later_point_wins_on_construction() {
    let curve = LinearCurve::new(&[(60, 70), (40, 30), (60, 20)]);
    assert_eq!(curve.points_list(), vec![(40, 30), (60, 20)]);
}

#[test]
fn removing_points() {
    let mut curve = LinearCurve::new(&[(40, 30), (60, 70)]);
    curve.remove_point(50);
    assert_eq!(curve.points_num(), 2);
    curve.remove_point(60);
    assert_eq!(curve.points_num(), 1);
    assert_eq!(curve.get_speed(90), 30);
    curve.remove_point(40);
    assert_eq!(curve.get_speed(90), 100);
}

fn identity_curve(lower: u32, upper: u32) -> HysteresisCurve<LinearCurve> {
    HysteresisCurve::<LinearCurve>::new(&[(0, 0), (100, 100)], lower, upper)
}

#[test]
fn hysteresis_deadband() {
    let mut curve = identity_curve(3, 3);
    assert_eq!(curve.get_speed(50), 50);
    assert_eq!(curve.get_speed(52), 50);
    assert_eq!(curve.get_speed(53), 53);
    assert_eq!(curve.get_speed(51), 53);
    assert_eq!(curve.get_speed(50), 50);
}

#[test]
fn hysteresis_keeps_speed_inside_deadband() {
    let mut curve = identity_curve(5, 2);
    assert_eq!(curve.get_speed(40), 40);
    for t in [41, 36, 40, 39] {
        assert_eq!(curve.get_speed(t), 40);
    }
    assert_eq!(curve.last_update, Some((40, 40)));
    assert_eq!(curve.get_speed(42), 42);
    assert_eq!(curve.get_speed(37), 37);
}

#[test]
fn hysteresis_without_thresholds_tracks_input() {
    let info = FanCurveInfo { points: vec![(0, 0), (100, 100)], lower_threshold: None, upper_threshold: None };
    let mut curve = HysteresisCurve::<LinearCurve>::from_info(&info);
    assert_eq!(curve.lower_threshold, 0);
    assert_eq!(curve.upper_threshold, 0);
    assert_eq!(curve.get_speed(10), 10);
    assert_eq!(curve.get_speed(11), 11);
    assert_eq!(curve.get_speed(9), 9);
}

#[test]
fn hysteresis_from_curve_and_points() {
    let mut curve = HysteresisCurve::from_curve(LinearCurve::new(&[(30, 20)]), 1, 4);
    assert!(curve.last_update.is_none());
    curve.add_point((80, 100));
    assert_eq!(curve.points_num(), 2);
    curve.remove_point(30);
    assert_eq!(curve.points_num(), 1);
    assert_eq!(curve.get_speed(0), 100);
}

#[test]
fn full_speed_curve() {
    let mut curve = HysteresisCurve::<LinearCurve>::full_speed();
    assert_eq!(curve.get_speed(-40), 100);
    assert_eq!(curve.get_speed(95), 100);
}

#[test]
fn manual_mode_is_clamped() {
    assert_eq!(FanMode::Manual(250).clamp(), FanMode::Manual(100));
    assert_eq!(FanMode::Manual(42).clamp(), FanMode::Manual(42));
    assert_eq!(FanMode::Auto.clamp(), FanMode::Auto);
}
