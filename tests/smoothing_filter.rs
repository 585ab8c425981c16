use vehicle_dynamics::smoothing::{exponential_moving_average, SmoothingWindow};
use vehicle_dynamics::units::UNIT;

#[test]
fn ema_of_a_speed_pair() {
    // 0.7 · 60.4 + 0.3 · 15.2 = 46.84, values in millionths
    assert_eq!(exponential_moving_average(15_200_000, 60_400_000, 700_000), 46_840_000);
}

#[test]
fn ema_rounds_to_nearest() {
    // 0.5 · 3 + 0.5 · 0 = 1.5, rounded up
    assert_eq!(exponential_moving_average(0, 3, 500_000), 2);
    assert_eq!(exponential_moving_average(0, 1, 300_000), 0);
}

#[test]
fn ema_of_equal_values_is_that_value() {
    assert_eq!(exponential_moving_average(42, 42, 350_000), 42);
    assert_eq!(exponential_moving_average(u64::MAX, u64::MAX, 500_000), u64::MAX);
}

#[test]
fn ema_extreme_factors() {
    assert_eq!(exponential_moving_average(10, 90, UNIT), 90);
    assert_eq!(exponential_moving_average(10, 90, 0), 10);
}

#[test]
fn empty_window_smooths_to_zero() {
    let mut w = SmoothingWindow::new();
    assert_eq!(w.smooth(500_000), 0);
    assert_eq!(w, SmoothingWindow { previous: 0, latest: 0 });
}

#[test]
fn window_seeds_next_step_with_its_output() {
    let mut w = SmoothingWindow::new();
    w.push(100);
    assert_eq!(w.smooth(500_000), 50);
    assert_eq!(w, SmoothingWindow { previous: 50, latest: 100 });
    assert_eq!(w.smooth(500_000), 75);
    w.reset();
    assert_eq!(w, SmoothingWindow { previous: 0, latest: 0 });
}
