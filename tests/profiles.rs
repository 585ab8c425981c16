use vehicle_dynamics::units::{LEVEL_UNIT, UNIT};
use vehicle_dynamics::{Car, CombustionCar, Gear, GearTable, HandBrake, Profile};

#[test]
fn standard_profile() {
    let p = Profile::standard();
    assert_eq!(p, Profile { speed_alpha: 500_000, braking_alpha: 500_000, gears: GearTable::Torque });
    assert_eq!(CombustionCar::new(0).profile, p);
    assert_eq!(Car::new(0, LEVEL_UNIT).profile, p);
}

#[test]
fn profile_factors_must_lie_in_unit_interval() {
    assert_eq!(Profile::new(0, 500_000, GearTable::Torque), None);
    assert_eq!(Profile::new(500_000, UNIT + 1, GearTable::Torque), None);
    assert_eq!(
        Profile::new(700_000, UNIT, GearTable::Economy),
        Some(Profile { speed_alpha: 700_000, braking_alpha: UNIT, gears: GearTable::Economy })
    );
}

#[test]
fn economy_gearbox_moves_slower_and_burns_more() {
    let profile = Profile::new(500_000, 500_000, GearTable::Economy).unwrap();
    let mut car = CombustionCar::with_profile(LEVEL_UNIT, profile);
    car.turn_key(true);
    car.set_handbrake_position(HandBrake::Disengaged);
    car.shift_gear(Gear::First);
    car.set_accelerator_position(500_000);
    car.update();
    // 2875 rpm · 0.30 at the wheels ≈ 13.0 km/h, halved by smoothing
    assert_eq!(car.speed(), 6_503_097);
    // 60.21 kW · 5 / 0.30 · 180 · 1e-10
    assert_eq!(car.fuel_level(), LEVEL_UNIT - 18_064_157_760_300);
}

#[test]
fn quicker_speed_filter() {
    let profile = Profile::new(700_000, 700_000, GearTable::Torque).unwrap();
    let mut car = Car::with_profile(LEVEL_UNIT, LEVEL_UNIT, profile);
    car.turn_key(true);
    car.set_handbrake_position(HandBrake::Disengaged);
    car.set_accelerator_position(500_000);
    car.update();
    // 0.7 of the raw 43.35 km/h
    assert_eq!(car.speed(), 30_347_785);
    car.set_handbrake_position(HandBrake::Full);
    car.update();
    assert_eq!(car.effective_braking(), 700_000);
}
