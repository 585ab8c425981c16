use vehicle_dynamics::units::{LEVEL_UNIT, UNIT};
use vehicle_dynamics::{Car, HandBrake};

const HEALTH_STEP: u64 = 3_906_250_000_000_000;

fn driving_car(soc: u64) -> Car {
    let mut car = Car::new(soc, LEVEL_UNIT);
    car.turn_key(true);
    car.set_handbrake_position(HandBrake::Disengaged);
    car.set_accelerator_position(500_000);
    car
}

#[test]
fn new_car_is_at_rest() {
    let car = Car::new(500_000_000_000_000_000, 900_000_000_000_000_000);
    assert_eq!(car.soc(), 500_000_000_000_000_000);
    assert_eq!(car.soh(), 900_000_000_000_000_000);
    assert_eq!(car.speed(), 0);
    assert_eq!(car.rpm(), 0);
    assert_eq!(*car.hand_brake(), HandBrake::Full);
    assert!(!car.ignition());
    assert_eq!(car.get_status(), "");
}

#[test]
fn key_sets_status() {
    let mut car = Car::new(0, LEVEL_UNIT);
    car.turn_key(true);
    assert_eq!(car.get_status(), "Running");
    car.turn_key(false);
    assert_eq!(car.get_status(), "Stopped");
    car.set_status("Charging");
    assert_eq!(car.get_status(), "Charging");
}

#[test]
fn one_tick_of_driving() {
    let mut car = driving_car(LEVEL_UNIT);
    car.update();
    assert_eq!(car.rpm(), 2875);
    // 2875 rpm at the wheels ≈ 43.35 km/h, smoothed from rest
    assert_eq!(car.speed(), 21_676_989);
    assert_eq!(car.distance_travelled(), 21_676_989 / 3600);
    // 60.21 kW · 5 / 3600
    assert_eq!(car.energy_consumed(), 83_630_360);
    assert_eq!(car.soc(), LEVEL_UNIT - 8_363_036);
    assert_eq!(car.soh(), LEVEL_UNIT);
}

#[test]
fn half_handbrake_holds_the_wheels_back() {
    let mut car = driving_car(LEVEL_UNIT);
    car.set_handbrake_position(HandBrake::Half);
    car.update();
    // braking 0.75 smoothed to 0.375, and the handbrake keeps a further 0.25
    assert_eq!(car.effective_braking(), 375_000);
    assert_eq!(car.speed(), 3_387_030);
}

#[test]
fn full_handbrake_converges_to_full_braking() {
    let mut car = driving_car(LEVEL_UNIT);
    car.set_handbrake_position(HandBrake::Full);
    for _ in 0..20 {
        car.update();
    }
    assert_eq!(car.effective_braking(), UNIT);
    assert_eq!(car.speed(), 0);
}

#[test]
fn charge_never_rises_while_driving() {
    let mut car = driving_car(LEVEL_UNIT);
    let mut last = car.soc();
    for _ in 0..50 {
        car.update();
        assert!(car.soc() <= last);
        assert!(car.soc() <= car.soh());
        last = car.soc();
    }
    assert!(last < LEVEL_UNIT);
}

#[test]
fn low_charge_driving_wears_health() {
    let mut car = driving_car(50_000_000_000_000_000);
    car.update();
    assert_eq!(car.soh(), LEVEL_UNIT - HEALTH_STEP);
}

#[test]
fn health_stays_positive_and_caps_charge() {
    let mut car = Car::new(1_000_000_000_000_000, 5_000_000_000_000_000);
    car.turn_key(true);
    car.update();
    assert_eq!(car.soh(), 5_000_000_000_000_000 - HEALTH_STEP);
    // idle at 750 rpm uses 15.7 kW · 5 / 3600
    assert_eq!(car.soc(), 1_000_000_000_000_000 - 2_181_661);
    for _ in 0..3 {
        car.update();
    }
    assert_eq!(car.soh(), 1);
    assert_eq!(car.soc(), 0);
}

#[test]
fn slow_charge_wraps_at_health() {
    let mut car = Car::new(990_000_000_000_000_000, LEVEL_UNIT);
    car.charge(20_000_000_000_000_000);
    assert_eq!(car.soh(), LEVEL_UNIT);
    assert_eq!(car.soc(), 10_000_000_000_000_000);
}

#[test]
fn fast_charge_costs_health() {
    let mut car = Car::new(0, LEVEL_UNIT);
    car.charge(500_000_000_000_000_000);
    assert_eq!(car.soh(), LEVEL_UNIT - HEALTH_STEP);
    assert_eq!(car.soc(), 500_000_000_000_000_000);
}

#[test]
fn electric_clean_stop_below_three_kmh() {
    let mut car = driving_car(LEVEL_UNIT);
    car.set_accelerator_position(0);
    car.update();
    assert_eq!(car.speed(), 0);
}

#[test]
fn electric_ignition_off_coasts_down() {
    let mut car = driving_car(LEVEL_UNIT);
    for _ in 0..5 {
        car.update();
    }
    car.turn_key(false);
    let mut last = car.speed();
    for _ in 0..100 {
        let distance = car.distance_travelled();
        car.update();
        let keep = 970_000 - car.effective_braking();
        assert_eq!(car.speed() as u128, last as u128 * keep as u128 / UNIT as u128);
        // coasting still covers ground
        assert_eq!(car.distance_travelled(), distance + car.speed() / 3600);
        last = car.speed();
    }
    assert_eq!(car.rpm(), 0);
}

#[test]
fn coasting_with_low_charge_wears_health() {
    let mut car = driving_car(50_000_000_000_000_000);
    car.update();
    let speed = car.speed();
    let distance = car.distance_travelled();
    car.turn_key(false);
    car.update();
    assert_eq!(car.soh(), LEVEL_UNIT - 2 * HEALTH_STEP);
    assert_eq!(car.speed(), (speed as u128 * 970_000 / UNIT as u128) as u64);
    assert_eq!(car.distance_travelled(), distance + car.speed() / 3600);
}

#[test]
fn empty_battery_stops_the_motor() {
    let mut car = Car::new(0, LEVEL_UNIT);
    car.turn_key(true);
    car.set_accelerator_position(UNIT);
    car.update();
    assert_eq!(car.rpm(), 0);
    assert_eq!(car.soc(), 0);
}

#[test]
fn braking_is_smoothed() {
    let mut car = driving_car(LEVEL_UNIT);
    car.set_brake_position(800_000);
    assert_eq!(car.accelerator_position(), 0);
    assert_eq!(car.brake_position(), 800_000);
    car.update_braking();
    assert_eq!(car.effective_braking(), 400_000);
    assert_eq!(car.smooth_braking(), 600_000);
    assert_eq!(car.effective_braking(), 600_000);
}
