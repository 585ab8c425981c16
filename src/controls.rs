//! The driver's discrete controls: the gear selector and the handbrake.
use vstd::prelude::*;

use crate::units::UNIT;

verus! {

/// Gear selector of the combustion car.
#[derive(Clone, Copy, Debug, PartialEq, Eq, Structural)]
pub enum Gear {
    Neutral,
    First,
    Second,
    Third,
    Fourth,
    Fifth,
    Reverse,
}

/// Which transmission ratios a car's gearbox has.
#[derive(Clone, Copy, Debug, PartialEq, Eq, Structural)]
pub enum GearTable {
    /// ratios tuned for torque
    Torque,
    /// ratios tuned for fuel economy
    Economy,
}

/// Transmission ratio of each gear, in millionths; reverse is negative.
pub open spec fn gear_ratio(table: GearTable, g: Gear) -> int {
    match table {
        GearTable::Torque => match g {
            Gear::Reverse => -750_000,
            Gear::Neutral => 0,
            Gear::First => 750_000,
            Gear::Second => 1_250_000,
            Gear::Third => 1_750_000,
            Gear::Fourth => 2_250_000,
            Gear::Fifth => 3_000_000,
        },
        GearTable::Economy => match g {
            Gear::Reverse => -100_000,
            Gear::Neutral => 0,
            Gear::First => 300_000,
            Gear::Second => 500_000,
            Gear::Third => 800_000,
            Gear::Fourth => 1_000_000,
            Gear::Fifth => 1_400_000,
        },
    }
}

/// The gear the driver moves to from `g`, given the clutch position (a
/// fraction of `UNIT`), the engine speed in rpm and the road speed in whole
/// km/h (`exceeds_ten` tells whether the exact speed is above 10 km/h), or
/// `None` to stay in `g`.
pub open spec fn shift_target(g: Gear, clutch: int, rpm: int, kmh: int, exceeds_ten: bool) -> Option<Gear> {
    match g {
        Gear::Reverse => Some(Gear::Neutral),
        Gear::Neutral => if clutch > UNIT / 2 { Some(Gear::First) } else { None },
        Gear::First => if rpm > 2500 && exceeds_ten { Some(Gear::Second) } else { None },
        Gear::Second => if kmh <= 10 {
            Some(Gear::First)
        } else if kmh > 25 && rpm > 3000 {
            Some(Gear::Third)
        } else {
            None
        },
        Gear::Third => if kmh <= 20 {
            Some(Gear::Second)
        } else if kmh > 50 && rpm > 3500 {
            Some(Gear::Fourth)
        } else {
            None
        },
        Gear::Fourth => if kmh <= 40 {
            Some(Gear::Third)
        } else if kmh > 80 && rpm > 4000 {
            Some(Gear::Fifth)
        } else {
            None
        },
        Gear::Fifth => if kmh <= 70 {
            Some(Gear::Fourth)
        } else {
            None
        },
    }
}

/// The gearbox's moves: between neighbouring forward gears, from neutral
/// into first or reverse, and from first or reverse back to neutral.
pub open spec fn neighbouring(from: Gear, to: Gear) -> bool {
    match from {
        Gear::Neutral => to == Gear::First || to == Gear::Reverse,
        Gear::First => to == Gear::Neutral || to == Gear::Second,
        Gear::Second => to == Gear::First || to == Gear::Third,
        Gear::Third => to == Gear::Second || to == Gear::Fourth,
        Gear::Fourth => to == Gear::Third || to == Gear::Fifth,
        Gear::Fifth => to == Gear::Fourth,
        Gear::Reverse => to == Gear::Neutral,
    }
}

/// Whatever the clutch, engine speed and road speed, the driver only ever
/// moves to a neighbouring gear.
pub proof fn lemma_shifts_are_neighbouring(g: Gear, clutch: int, rpm: int, kmh: int, exceeds_ten: bool)
    ensures
        shift_target(g, clutch, rpm, kmh, exceeds_ten) matches Some(next) ==> neighbouring(g, next),
{
}

impl Gear {
    /// Transmission ratio of this gear in `table`, in millionths
    /// (`-750_000` is −0.75).
    pub fn ratio(&self, table: GearTable) -> (r: i64)
        ensures
            r == gear_ratio(table, *self),
            -(UNIT as int) <= r <= 3 * UNIT,
    {
        match table {
            GearTable::Torque => match self {
                Gear::Reverse => -750_000,
                Gear::Neutral => 0,
                Gear::First => 750_000,
                Gear::Second => 1_250_000,
                Gear::Third => 1_750_000,
                Gear::Fourth => 2_250_000,
                Gear::Fifth => 3_000_000,
            },
            GearTable::Economy => match self {
                Gear::Reverse => -100_000,
                Gear::Neutral => 0,
                Gear::First => 300_000,
                Gear::Second => 500_000,
                Gear::Third => 800_000,
                Gear::Fourth => 1_000_000,
                Gear::Fifth => 1_400_000,
            },
        }
    }

    /// The gear a driver picks next, from the clutch position (a fraction of
    /// `UNIT`), the engine speed in rpm and the road speed in millionths of a
    /// km/h; `None` keeps the current gear.
    pub fn shift_choice(&self, clutch: u64, rpm: u32, speed: u64) -> (r: Option<Gear>)
        ensures
            r == shift_target(
                *self,
                clutch as int,
                rpm as int,
                speed as int / 1_000_000,
                speed > 10_000_000,
            ),
    {
        let kmh: u64 = speed / 1_000_000;
        match self {
            Gear::Reverse => Some(Gear::Neutral),
            Gear::Neutral => if clutch > UNIT / 2 {
                Some(Gear::First)
            } else {
                None
            },
            Gear::First => if rpm > 2500 && speed > 10_000_000 {
                Some(Gear::Second)
            } else {
                None
            },
            Gear::Second => if kmh <= 10 {
                Some(Gear::First)
            } else if kmh > 25 && rpm > 3000 {
                Some(Gear::Third)
            } else {
                None
            },
            Gear::Third => if kmh <= 20 {
                Some(Gear::Second)
            } else if kmh > 50 && rpm > 3500 {
                Some(Gear::Fourth)
            } else {
                None
            },
            Gear::Fourth => if kmh <= 40 {
                Some(Gear::Third)
            } else if kmh > 80 && rpm > 4000 {
                Some(Gear::Fifth)
            } else {
                None
            },
            Gear::Fifth => if kmh <= 70 {
                Some(Gear::Fourth)
            } else {
                None
            },
        }
    }
}

impl Default for Gear {
    fn default() -> (g: Gear)
        ensures
            g == Gear::Neutral,
    {
        Gear::Neutral
    }
}

/// Handbrake setting.
#[derive(Clone, Copy, Debug, PartialEq, Eq, Structural)]
pub enum HandBrake {
    Disengaged,
    Half,
    Full,
}

/// The braking floor that a handbrake setting imposes, as a fraction of
/// `UNIT`; a disengaged handbrake imposes none.
pub open spec fn handbrake_effect(h: HandBrake) -> Option<u64> {
    match h {
        HandBrake::Disengaged => None,
        HandBrake::Half => Some(750_000u64),
        HandBrake::Full => Some(UNIT),
    }
}

/// The handbrake's effect, 0 where it imposes none.
pub open spec fn handbrake_share(h: HandBrake) -> int {
    match handbrake_effect(h) {
        Some(e) => e as int,
        None => 0,
    }
}

/// Pedal braking merged with the handbrake: the handbrake is a floor, not
/// an addition.
pub open spec fn merged_braking(brake: int, h: HandBrake) -> int {
    match handbrake_effect(h) {
        Some(e) => if brake < e { e as int } else { brake },
        None => brake,
    }
}

impl HandBrake {
    /// The braking floor of this setting, as a fraction of `UNIT`.
    pub fn effect(&self) -> (r: Option<u64>)
        ensures
            r == handbrake_effect(*self),
    {
        match self {
            HandBrake::Disengaged => None,
            HandBrake::Half => Some(750_000),
            HandBrake::Full => Some(UNIT),
        }
    }

    /// Merges a brake pedal position with this handbrake setting.
    pub fn merge(&self, brake: u64) -> (r: u64)
        ensures
            r == merged_braking(brake as int, *self),
            r >= brake,
            brake <= UNIT ==> r <= UNIT,
    {
        match self.effect() {
            Some(e) => if brake < e {
                e
            } else {
                brake
            },
            None => brake,
        }
    }
}

impl Default for HandBrake {
    fn default() -> (h: HandBrake)
        ensures
            h == HandBrake::Full,
    {
        HandBrake::Full
    }
}

} // verus!
