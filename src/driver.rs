//! A restless demo driver: one decision per tick, made from the car's state,
//! whether it is stopped to refuel, and a set of random draws.
use vstd::prelude::*;

use crate::combustion::CombustionCar;
use crate::controls::{shift_target, Gear, HandBrake};
use crate::units::{LEVEL_UNIT, UNIT};

verus! {

/// Below this fuel level (a quarter tank) the driver heads for a refill.
pub const LOW_FUEL: u64 = 250_000_000_000_000_000;

/// Fuel added per tick while standing at the pump (0.001 of a tank).
pub const REFUEL_STEP: u64 = 1_000_000_000_000_000;

/// The random draws behind one decision; fractions are of `UNIT`.
#[derive(Clone, Copy, Debug)]
pub struct DriverDraws {
    /// clutch while rolling into the station, in `[0.3, 0.9)`
    pub approach_clutch: u64,
    /// brake while rolling into the station, in `[0.3, 0.9)`
    pub approach_brake: u64,
    /// a whim to change gear, with probability 0.05
    pub shift_now: bool,
    /// clutch for a gear change, in `[0.25, 1.0)`
    pub shift_clutch: u64,
    /// a whim to brake, with probability 0.05
    pub brake_now: bool,
    /// brake pressure, in `[0.3, 1.0)`
    pub brake_amount: u64,
    /// a whim to touch the handbrake, with probability 0.005
    pub handbrake_now: bool,
    /// pull the handbrake fully, with probability 0.25
    pub handbrake_pull: bool,
    /// ease the handbrake to half, with probability 0.25
    pub handbrake_ease: bool,
    /// throttle, in `[0.25, 1.0)`
    pub accelerator: u64,
}

/// What the driver asks of the world around the car.
#[derive(Clone, Copy, Debug, PartialEq, Eq, Structural)]
pub enum DriverAction {
    /// nothing beyond the car's controls
    Drive,
    /// the car stands at the pump and takes its first fuel: start the refuelling timer
    StartRefuelling,
    /// refuelling is over: drop the timer
    FinishRefuelling,
}

impl DriverDraws {
    pub open spec fn wf(&self) -> bool {
        &&& self.approach_clutch <= UNIT
        &&& self.approach_brake <= UNIT
        &&& self.shift_clutch <= UNIT
        &&& self.brake_amount <= UNIT
        &&& self.accelerator <= UNIT
    }
}

/// Whether the engine speed calls for a gear change.
pub open spec fn wants_shift(rpm: int, whim: bool) -> bool {
    whim && rpm > 2500 || rpm > 3500 || rpm < 1250
}

/// The car after the driver's choice of gear.
pub open spec fn shifted(car: CombustionCar, d: DriverDraws) -> CombustionCar {
    if wants_shift(car.engine_rpm as int, d.shift_now) {
        match shift_target(
            car.gear,
            car.clutch_position as int,
            car.engine_rpm as int,
            car.speed as int / 1_000_000,
            car.speed > 10_000_000,
        ) {
            Some(g) => CombustionCar { clutch_position: d.shift_clutch, gear: g, ..car },
            None => car,
        }
    } else {
        CombustionCar { clutch_position: 0, ..car }
    }
}

/// The handbrake setting after the driver's whims.
pub open spec fn handbrake_choice(h: HandBrake, d: DriverDraws) -> HandBrake {
    if d.handbrake_now {
        if d.handbrake_pull || h == HandBrake::Half {
            HandBrake::Full
        } else {
            HandBrake::Half
        }
    } else if h != HandBrake::Disengaged {
        if d.handbrake_ease || h == HandBrake::Full {
            HandBrake::Half
        } else {
            HandBrake::Disengaged
        }
    } else {
        h
    }
}

/// The car and the request after one decision, in the driver's order of
/// concerns: rolling into the station, stopping there, refuelling, gears,
/// brake, handbrake, throttle.
pub open spec fn driver_step(
    car: CombustionCar,
    refuelling: bool,
    time_up: bool,
    d: DriverDraws,
) -> (CombustionCar, DriverAction) {
    if car.fuel_level < LOW_FUEL && car.speed != 0 {
        (
            CombustionCar {
                clutch_position: d.approach_clutch,
                brake_position: d.approach_brake,
                accelerator_position: 0,
                ..car
            },
            DriverAction::Drive,
        )
    } else if car.fuel_level < LOW_FUEL && !refuelling {
        (
            CombustionCar {
                hand_brake: HandBrake::Full,
                gear: Gear::Neutral,
                clutch_position: 0,
                brake_position: 0,
                accelerator_position: 0,
                fuel_level: ((car.fuel_level + REFUEL_STEP) % (LEVEL_UNIT as int)) as u64,
                ..car
            },
            DriverAction::StartRefuelling,
        )
    } else if refuelling {
        if time_up {
            (CombustionCar { hand_brake: HandBrake::Disengaged, ..car }, DriverAction::FinishRefuelling)
        } else {
            (
                CombustionCar {
                    fuel_level: ((car.fuel_level + REFUEL_STEP) % (LEVEL_UNIT as int)) as u64,
                    ..car
                },
                DriverAction::Drive,
            )
        }
    } else {
        let c = shifted(car, d);
        if d.brake_now || c.brake_position > UNIT / 2 {
            (
                CombustionCar { brake_position: d.brake_amount, accelerator_position: 0, ..c },
                DriverAction::Drive,
            )
        } else {
            let h = handbrake_choice(c.hand_brake, d);
            if d.handbrake_now && (d.handbrake_pull || c.hand_brake == HandBrake::Half) {
                (
                    CombustionCar { brake_position: 0, accelerator_position: 0, hand_brake: h, ..c },
                    DriverAction::Drive,
                )
            } else {
                (
                    CombustionCar {
                        brake_position: 0,
                        accelerator_position: d.accelerator,
                        hand_brake: h,
                        ..c
                    },
                    DriverAction::Drive,
                )
            }
        }
    }
}

/// Moves to the gear the driver picks, pressing the clutch to `clutch_position`.
pub fn shift_gears(car: &mut CombustionCar, clutch_position: u64)
    requires
        old(car).wf(),
        clutch_position <= UNIT,
    ensures
        final(car).wf(),
        *final(car) == match shift_target(
            old(car).gear,
            old(car).clutch_position as int,
            old(car).engine_rpm as int,
            old(car).speed as int / 1_000_000,
            old(car).speed > 10_000_000,
        ) {
            Some(g) => CombustionCar { clutch_position, gear: g, ..*old(car) },
            None => *old(car),
        },
{
    let choice = car.gear().shift_choice(car.clutch_position(), car.rpm(), car.speed());
    if let Some(gear) = choice {
        car.set_clutch_position(clutch_position);
        car.shift_gear(gear);
    }
}

/// Makes the driver's decision for this tick on `car`, given whether the car
/// is stopped to refuel and, if so, whether that time is up. Returns what
/// the surroundings must do about refuelling.
pub fn drive(
    car: &mut CombustionCar,
    refuelling: bool,
    time_up: bool,
    d: &DriverDraws,
) -> (r: DriverAction)
    requires
        old(car).wf(),
        d.wf(),
    ensures
        final(car).wf(),
        (*final(car), r) == driver_step(*old(car), refuelling, time_up, *d),
        final(car).speed == old(car).speed,
{
    // Stop for refuelling, slowly get into the gas station
    if car.fuel_level() < LOW_FUEL && car.speed() != 0 {
        car.set_clutch_position(d.approach_clutch);
        car.set_brake_position(d.approach_brake);
        return DriverAction::Drive;
    }
    // Start refuelling
    if car.fuel_level() < LOW_FUEL && !refuelling {
        car.set_handbrake_position(HandBrake::Full);
        car.shift_gear(Gear::Neutral);
        car.set_clutch_position(0);
        car.set_brake_position(0);
        car.refuel(REFUEL_STEP);
        return DriverAction::StartRefuelling;
    }
    if refuelling {
        if time_up {
            car.set_handbrake_position(HandBrake::Disengaged);
            return DriverAction::FinishRefuelling;
        }
        car.refuel(REFUEL_STEP);
        return DriverAction::Drive;
    }
    let rpm = car.rpm();
    if d.shift_now && rpm > 2500 || rpm > 3500 || rpm < 1250 {
        shift_gears(car, d.shift_clutch);
    } else {
        car.set_clutch_position(0);
    }
    // very few times, press the brake to slow down, else remove
    if d.brake_now || car.brake_position() > UNIT / 2 {
        car.set_brake_position(d.brake_amount);
        return DriverAction::Drive;
    } else {
        car.set_brake_position(0);
    }
    // even fewer times, engage hand brake to slow down instantly, or else do the opposite
    if d.handbrake_now {
        if d.handbrake_pull || *car.hand_brake() == HandBrake::Half {
            car.set_handbrake_position(HandBrake::Full);
            return DriverAction::Drive;
        } else {
            car.set_handbrake_position(HandBrake::Half);
        }
    } else if *car.hand_brake() != HandBrake::Disengaged {
        let next = if d.handbrake_ease || *car.hand_brake() == HandBrake::Full {
            HandBrake::Half
        } else {
            HandBrake::Disengaged
        };
        car.set_handbrake_position(next);
    }
    car.set_accelerator_position(d.accelerator);
    DriverAction::Drive
}

} // verus!
