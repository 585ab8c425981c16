use vehicle_dynamics::units::{LEVEL_UNIT, UNIT};
use vehicle_dynamics::{CombustionCar, Gear, HandBrake};

fn driving_car() -> CombustionCar {
    let mut car = CombustionCar::new(LEVEL_UNIT);
    car.turn_key(true);
    car.set_handbrake_position(HandBrake::Disengaged);
    car.set_clutch_position(UNIT);
    car.shift_gear(Gear::First);
    car.set_clutch_position(0);
    car.set_accelerator_position(500_000);
    car
}

#[test]
fn first_gear_half_throttle_scenario() {
    let mut car = driving_car();
    let expected = [16_257_742u64, 24_386_613, 28_451_048, 30_483_266, 31_499_375];
    let mut last = 0;
    for want in expected {
        car.update();
        // 750 + 4250 · 0.5
        assert_eq!(car.rpm(), 2875);
        assert_eq!(car.speed(), want);
        assert!(car.speed() > last);
        // bounded by the raw sample, 2156.25 rpm at the wheels ≈ 32.5 km/h
        assert!(car.speed() <= 32_515_483);
        last = car.speed();
    }
}

#[test]
fn refuel_wraps_round() {
    let mut car = CombustionCar::new(0);
    car.refuel(1_200_000_000_000_000_000);
    assert_eq!(car.fuel_level(), 200_000_000_000_000_000);
    car.refuel(800_000_000_000_000_000);
    assert_eq!(car.fuel_level(), 0);
}

#[test]
fn fuel_burned_in_first_gear() {
    let mut car = driving_car();
    car.update();
    // 60.21 kW · 5 / 0.75 · 180 · 1e-10
    assert_eq!(car.fuel_level(), LEVEL_UNIT - 7_225_663_104_120);
}

#[test]
fn reverse_burns_fuel_like_first() {
    let mut car = driving_car();
    car.shift_gear(Gear::Reverse);
    car.update();
    assert_eq!(car.fuel_level(), LEVEL_UNIT - 7_225_663_104_120);
    // the road speed is a magnitude
    assert_eq!(car.speed(), 16_257_742);
}

#[test]
fn neutral_burns_nothing_and_does_not_move() {
    let mut car = driving_car();
    car.shift_gear(Gear::Neutral);
    car.update();
    assert_eq!(car.rpm(), 2875);
    assert_eq!(car.fuel_level(), LEVEL_UNIT);
    assert_eq!(car.speed(), 0);
}

#[test]
fn fuel_never_rises_while_driving() {
    let mut car = driving_car();
    let mut last = car.fuel_level();
    for _ in 0..50 {
        car.update();
        assert!(car.fuel_level() <= last);
        assert!(car.fuel_level() <= LEVEL_UNIT);
        last = car.fuel_level();
    }
    assert!(last < LEVEL_UNIT);
}

#[test]
fn empty_tank_stops_the_engine() {
    let mut car = CombustionCar::new(0);
    car.turn_key(true);
    car.set_accelerator_position(UNIT);
    car.update();
    assert_eq!(car.rpm(), 0);
    assert_eq!(car.fuel_level(), 0);
}

#[test]
fn full_handbrake_brings_full_braking() {
    let mut car = driving_car();
    car.set_accelerator_position(800_000);
    car.set_handbrake_position(HandBrake::Full);
    let mut gap = UNIT;
    for _ in 0..20 {
        car.update();
        let new_gap = UNIT - car.effective_braking();
        assert!(2 * new_gap <= gap);
        gap = new_gap;
    }
    assert_eq!(car.effective_braking(), UNIT);
}

#[test]
fn clean_stop_below_three_kmh() {
    let mut car = driving_car();
    car.set_handbrake_position(HandBrake::Half);
    car.set_accelerator_position(1);
    car.update();
    assert!(car.speed() > 0 && car.speed() < 3_000_000);
    car.set_accelerator_position(0);
    car.update();
    assert_eq!(car.speed(), 0);
}

#[test]
fn heavy_braking_stops_at_once() {
    let mut car = driving_car();
    for _ in 0..5 {
        car.update();
    }
    car.set_brake_position(UNIT);
    car.update();
    // braking is smoothed: 0.5 on the first tick
    assert_eq!(car.effective_braking(), 500_000);
    assert!(car.speed() > 0);
    car.update();
    assert_eq!(car.effective_braking(), 750_000);
    car.update();
    assert_eq!(car.effective_braking(), 875_000);
    assert_eq!(car.speed(), 0);
}

#[test]
fn ignition_off_coasts_down() {
    let mut car = driving_car();
    for _ in 0..5 {
        car.update();
    }
    car.turn_key(false);
    let mut last = car.speed();
    for _ in 0..200 {
        car.update();
        let keep = 970_000 - car.effective_braking();
        assert_eq!(car.speed() as u128, last as u128 * keep as u128 / UNIT as u128);
        assert!(car.speed() <= last);
        last = car.speed();
    }
    assert!(last < 100_000);
    assert_eq!(car.rpm(), 0);
}

#[test]
fn open_clutch_coasts_with_braking() {
    let mut car = driving_car();
    for _ in 0..5 {
        car.update();
    }
    let before = car.speed();
    car.set_clutch_position(UNIT);
    car.set_brake_position(400_000);
    car.update();
    // braking 0.4 smoothed to 0.2, so 0.77 of the speed is kept
    assert_eq!(car.effective_braking(), 200_000);
    assert_eq!(car.speed(), (before as u128 * 770_000 / 1_000_000) as u64);
}

#[test]
fn pedals_exclude_each_other() {
    let mut car = driving_car();
    car.set_brake_position(300_000);
    assert_eq!(car.accelerator_position(), 0);
    assert_eq!(car.brake_position(), 300_000);
    car.set_accelerator_position(600_000);
    assert_eq!(car.brake_position(), 0);
    assert_eq!(car.accelerator_position(), 600_000);
    assert_eq!(car.clutch_position(), 0);
    assert_eq!(car.gear(), Gear::First);
    assert_eq!(car.hand_brake(), &HandBrake::Disengaged);
    assert!(car.ignition());
}

#[test]
fn light_braking_is_not_sampled() {
    let mut car = CombustionCar::new(LEVEL_UNIT);
    car.set_handbrake_position(HandBrake::Disengaged);
    car.set_brake_position(50_000);
    car.update();
    assert_eq!(car.effective_braking(), 0);
    car.set_brake_position(600_000);
    car.update();
    assert_eq!(car.effective_braking(), 300_000);
    car.set_brake_position(0);
    car.update();
    assert_eq!(car.effective_braking(), 0);
}
