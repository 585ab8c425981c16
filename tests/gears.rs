use vehicle_dynamics::controls::{Gear, GearTable, HandBrake};

#[test]
fn gear_ratios() {
    assert_eq!(Gear::Reverse.ratio(GearTable::Torque), -750_000);
    assert_eq!(Gear::Neutral.ratio(GearTable::Torque), 0);
    assert_eq!(Gear::First.ratio(GearTable::Torque), 750_000);
    assert_eq!(Gear::Second.ratio(GearTable::Torque), 1_250_000);
    assert_eq!(Gear::Third.ratio(GearTable::Torque), 1_750_000);
    assert_eq!(Gear::Fourth.ratio(GearTable::Torque), 2_250_000);
    assert_eq!(Gear::Fifth.ratio(GearTable::Torque), 3_000_000);
}

#[test]
fn economy_gear_ratios() {
    assert_eq!(Gear::Reverse.ratio(GearTable::Economy), -100_000);
    assert_eq!(Gear::Neutral.ratio(GearTable::Economy), 0);
    assert_eq!(Gear::First.ratio(GearTable::Economy), 300_000);
    assert_eq!(Gear::Second.ratio(GearTable::Economy), 500_000);
    assert_eq!(Gear::Third.ratio(GearTable::Economy), 800_000);
    assert_eq!(Gear::Fourth.ratio(GearTable::Economy), 1_000_000);
    assert_eq!(Gear::Fifth.ratio(GearTable::Economy), 1_400_000);
}

#[test]
fn defaults() {
    assert_eq!(Gear::default(), Gear::Neutral);
    assert_eq!(HandBrake::default(), HandBrake::Full);
}

#[test]
fn handbrake_effects() {
    assert_eq!(HandBrake::Disengaged.effect(), None);
    assert_eq!(HandBrake::Half.effect(), Some(750_000));
    assert_eq!(HandBrake::Full.effect(), Some(1_000_000));
}

#[test]
fn handbrake_is_a_floor() {
    assert_eq!(HandBrake::Half.merge(200_000), 750_000);
    assert_eq!(HandBrake::Half.merge(900_000), 900_000);
    assert_eq!(HandBrake::Full.merge(0), 1_000_000);
    assert_eq!(HandBrake::Disengaged.merge(300_000), 300_000);
}

#[test]
fn shift_choices() {
    assert_eq!(Gear::Reverse.shift_choice(0, 0, 0), Some(Gear::Neutral));
    assert_eq!(Gear::Neutral.shift_choice(600_000, 800, 0), Some(Gear::First));
    assert_eq!(Gear::Neutral.shift_choice(500_000, 800, 0), None);
    assert_eq!(Gear::First.shift_choice(0, 2600, 10_500_000), Some(Gear::Second));
    assert_eq!(Gear::First.shift_choice(0, 2600, 10_000_000), None);
    assert_eq!(Gear::Second.shift_choice(0, 1000, 10_900_000), Some(Gear::First));
    assert_eq!(Gear::Second.shift_choice(0, 3100, 26_000_000), Some(Gear::Third));
    assert_eq!(Gear::Second.shift_choice(0, 3000, 26_000_000), None);
    assert_eq!(Gear::Third.shift_choice(0, 1000, 15_000_000), Some(Gear::Second));
    assert_eq!(Gear::Third.shift_choice(0, 3600, 51_000_000), Some(Gear::Fourth));
    assert_eq!(Gear::Fourth.shift_choice(0, 1000, 35_000_000), Some(Gear::Third));
    assert_eq!(Gear::Fourth.shift_choice(0, 4100, 81_000_000), Some(Gear::Fifth));
    assert_eq!(Gear::Fifth.shift_choice(0, 1000, 60_000_000), Some(Gear::Fourth));
    assert_eq!(Gear::Fifth.shift_choice(0, 1000, 90_000_000), None);
    // down one gear at a time, however slow
    assert_eq!(Gear::Third.shift_choice(0, 800, 5_000_000), Some(Gear::Second));
    assert_eq!(Gear::Fourth.shift_choice(0, 800, 5_000_000), Some(Gear::Third));
    assert_eq!(Gear::Fifth.shift_choice(0, 800, 5_000_000), Some(Gear::Fourth));
}
