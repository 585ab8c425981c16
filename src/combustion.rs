//! The combustion car: engine, gearbox and clutch, braking, speed and fuel.
use vstd::prelude::*;

use crate::controls::{gear_ratio, merged_braking, Gear, GearTable, HandBrake};
use crate::motion::{
    brake_step, braking_step, road_speed, speed_sample, speed_step, speed_update,
    speed_window_step,
};
use crate::powertrain::{
    engine_rpm_milli, engine_speed, fuel_burn, fuel_burned, geared_rpm_milli, geared_speed,
};
use crate::profile::Profile;
use crate::smoothing::{ema, SmoothingWindow};
use crate::units::{BRAKING_ALPHA, CLUTCH_BITE, LEVEL_UNIT, MAX_RPM_MILLI, SPEED_ALPHA, UNIT};

verus! {

/// Magnitude of a transmission speed.
pub open spec fn magnitude(t: int) -> int {
    if t < 0 {
        -t
    } else {
        t
    }
}

/// A car with a combustion engine and a five-speed gearbox. Speeds are in
/// millionths of a km/h, pedal and clutch positions and braking in fractions
/// of `UNIT`, the fuel level in fractions of `LEVEL_UNIT`.
pub struct CombustionCar {
    pub speed_window: SmoothingWindow,
    pub braking_window: SmoothingWindow,
    /// effective value after brake has been applied
    pub effective_braking: u64,
    pub speed: u64,
    pub engine_rpm: u32,
    /// thousandths of an rpm; negative in reverse
    pub transmission_rpm: i64,
    pub accelerator_position: u64,
    pub brake_position: u64,
    pub clutch_position: u64,
    pub gear: Gear,
    pub hand_brake: HandBrake,
    pub fuel_level: u64,
    pub ignition: bool,
    pub profile: Profile,
}

impl CombustionCar {
    /// The car's invariant: levels in range, one pedal at a time, and the
    /// braking window's smoothed slot publishing the effective braking.
    pub open spec fn wf(&self) -> bool {
        &&& self.fuel_level <= LEVEL_UNIT
        &&& self.accelerator_position <= UNIT
        &&& self.brake_position <= UNIT
        &&& self.clutch_position <= UNIT
        &&& (self.accelerator_position > 0 ==> self.brake_position == 0)
        &&& (self.brake_position > 0 ==> self.accelerator_position == 0)
        &&& self.effective_braking <= UNIT
        &&& self.braking_window.previous == self.effective_braking
        &&& self.braking_window.latest <= UNIT
        &&& self.profile.wf()
        &&& -(MAX_RPM_MILLI as int) <= self.transmission_rpm <= 3 * MAX_RPM_MILLI
        &&& self.engine_rpm <= 5000
    }

    /// Whether the wheels are cut off from the engine: clutch open or ignition off.
    pub open spec fn coasting(self) -> bool {
        !self.ignition || self.clutch_position > CLUTCH_BITE
    }

    /// Engine stage: engine speed from the pedal, through gear and clutch.
    pub open spec fn after_rpm(self) -> CombustionCar {
        let rpm = engine_rpm_milli(self.accelerator_position as int, self.fuel_level > 0 && self.ignition);
        CombustionCar {
            engine_rpm: (rpm / 1000) as u32,
            transmission_rpm: geared_rpm_milli(rpm, gear_ratio(self.profile.gears, self.gear), self.clutch_position as int) as i64,
            ..self
        }
    }

    /// Braking stage: pedal and handbrake merged and smoothed.
    pub open spec fn after_braking(self) -> CombustionCar {
        let w = braking_step(self.braking_window, merged_braking(self.brake_position as int, self.hand_brake), self.profile.braking_alpha as int);
        CombustionCar { braking_window: w, effective_braking: w.previous, ..self }
    }

    /// Raw road speed of this tick, held back by braking.
    pub open spec fn sample(self) -> int {
        speed_sample(magnitude(self.transmission_rpm as int), self.effective_braking as int, 0)
    }

    /// Speed stage: coasting, clean stop, or smoothed speed.
    pub open spec fn after_speed(self) -> CombustionCar {
        CombustionCar {
            speed: speed_step(
                self.speed_window,
                self.speed as int,
                self.coasting(),
                self.accelerator_position as int,
                self.effective_braking as int,
                self.sample(),
                self.profile.speed_alpha as int,
            ) as u64,
            speed_window: speed_window_step(
                self.speed_window,
                self.speed as int,
                self.coasting(),
                self.accelerator_position as int,
                self.effective_braking as int,
                self.sample(),
                self.profile.speed_alpha as int,
            ),
            ..self
        }
    }

    /// Fuel stage: fuel burned at the engine's speed under the gear's load.
    pub open spec fn after_fuel(self) -> CombustionCar {
        let burned = fuel_burned(self.engine_rpm as int, gear_ratio(self.profile.gears, self.gear));
        CombustionCar { fuel_level: self.fuel_level.saturating_sub(burned as u64), ..self }
    }

    /// The car after one tick.
    pub open spec fn ticked(self) -> CombustionCar {
        self.after_rpm().after_braking().after_speed().after_fuel()
    }

    /// The car after `n` ticks with unchanged controls.
    pub open spec fn ticks(self, n: nat) -> CombustionCar
        decreases n,
    {
        if n == 0 {
            self
        } else {
            self.ticked().ticks((n - 1) as nat)
        }
    }

    /// A car of the standard profile at rest in neutral with the given fuel
    /// level, ignition off and handbrake fully on.
    pub fn new(fuel_level: u64) -> (r: CombustionCar)
        requires
            fuel_level <= LEVEL_UNIT,
        ensures
            r.wf(),
            r.fuel_level == fuel_level,
            r.speed == 0,
            r.engine_rpm == 0,
            r.accelerator_position == 0,
            r.brake_position == 0,
            r.clutch_position == 0,
            r.gear == Gear::Neutral,
            r.hand_brake == HandBrake::Full,
            !r.ignition,
            r.effective_braking == 0,
            r.speed_window == SmoothingWindow::empty(),
            r.braking_window == SmoothingWindow::empty(),
            r.profile == (Profile { speed_alpha: SPEED_ALPHA, braking_alpha: BRAKING_ALPHA, gears: GearTable::Torque }),
    {
        CombustionCar::with_profile(fuel_level, Profile::standard())
    }

    /// A car of the given profile at rest in neutral with the given fuel
    /// level, ignition off and handbrake fully on.
    pub fn with_profile(fuel_level: u64, profile: Profile) -> (r: CombustionCar)
        requires
            fuel_level <= LEVEL_UNIT,
            profile.wf(),
        ensures
            r.wf(),
            r.fuel_level == fuel_level,
            r.speed == 0,
            r.engine_rpm == 0,
            r.accelerator_position == 0,
            r.brake_position == 0,
            r.clutch_position == 0,
            r.gear == Gear::Neutral,
            r.hand_brake == HandBrake::Full,
            !r.ignition,
            r.effective_braking == 0,
            r.speed_window == SmoothingWindow::empty(),
            r.braking_window == SmoothingWindow::empty(),
            r.profile == profile,
    {
        CombustionCar {
            speed_window: SmoothingWindow::new(),
            braking_window: SmoothingWindow::new(),
            effective_braking: 0,
            speed: 0,
            engine_rpm: 0,
            transmission_rpm: 0,
            accelerator_position: 0,
            brake_position: 0,
            clutch_position: 0,
            gear: Gear::Neutral,
            hand_brake: HandBrake::Full,
            fuel_level,
            ignition: false,
            profile,
        }
    }

    /// Presses the accelerator to `position` and releases the brake.
    pub fn set_accelerator_position(&mut self, position: u64)
        requires
            old(self).wf(),
            position <= UNIT,
        ensures
            final(self).wf(),
            *final(self) == (CombustionCar { accelerator_position: position, brake_position: 0, ..*old(self) }),
    {
        self.accelerator_position = position;
        self.brake_position = 0;
    }

    pub fn accelerator_position(&self) -> (r: u64)
        ensures
            r == self.accelerator_position,
    {
        self.accelerator_position
    }

    /// Presses the brake to `position` and releases the accelerator.
    pub fn set_brake_position(&mut self, position: u64)
        requires
            old(self).wf(),
            position <= UNIT,
        ensures
            final(self).wf(),
            *final(self) == (CombustionCar { brake_position: position, accelerator_position: 0, ..*old(self) }),
    {
        self.brake_position = position;
        self.accelerator_position = 0;
    }

    pub fn brake_position(&self) -> (r: u64)
        ensures
            r == self.brake_position,
    {
        self.brake_position
    }

    /// Sets the clutch pedal; above one half it disconnects the drivetrain.
    pub fn set_clutch_position(&mut self, position: u64)
        requires
            old(self).wf(),
            position <= UNIT,
        ensures
            final(self).wf(),
            *final(self) == (CombustionCar { clutch_position: position, ..*old(self) }),
    {
        self.clutch_position = position;
    }

    pub fn clutch_position(&self) -> (r: u64)
        ensures
            r == self.clutch_position,
    {
        self.clutch_position
    }

    pub fn shift_gear(&mut self, gear: Gear)
        requires
            old(self).wf(),
        ensures
            final(self).wf(),
            *final(self) == (CombustionCar { gear, ..*old(self) }),
    {
        self.gear = gear;
    }

    pub fn gear(&self) -> (r: Gear)
        ensures
            r == self.gear,
    {
        self.gear
    }

    pub fn set_handbrake_position(&mut self, position: HandBrake)
        requires
            old(self).wf(),
        ensures
            final(self).wf(),
            *final(self) == (CombustionCar { hand_brake: position, ..*old(self) }),
    {
        self.hand_brake = position;
    }

    pub fn hand_brake(&self) -> (r: &HandBrake)
        ensures
            *r == self.hand_brake,
    {
        &self.hand_brake
    }

    /// Smoothed braking applied in the last tick, in fractions of `UNIT`.
    pub fn effective_braking(&self) -> (r: u64)
        ensures
            r == self.effective_braking,
    {
        self.effective_braking
    }

    /// Smooths the braking window, publishes the result as the effective
    /// braking and returns it.
    pub fn smooth_braking(&mut self) -> (r: u64)
        requires
            old(self).wf(),
        ensures
            final(self).wf(),
            r == ema(old(self).braking_window.previous as int, old(self).braking_window.latest as int, old(self).profile.braking_alpha as int),
            *final(self) == (CombustionCar {
                braking_window: old(self).braking_window.smoothed(old(self).profile.braking_alpha as int),
                effective_braking: r,
                ..*old(self)
            }),
    {
        let r = self.braking_window.smooth(self.profile.braking_alpha);
        self.effective_braking = r;
        r
    }

    /// Merges pedal and handbrake into the braking window and publishes the
    /// smoothed effective braking.
    pub fn update_braking(&mut self)
        requires
            old(self).wf(),
        ensures
            final(self).wf(),
            *final(self) == old(self).after_braking(),
    {
        let braking = self.hand_brake.merge(self.brake_position);
        self.effective_braking = brake_step(&mut self.braking_window, braking, self.profile.braking_alpha);
    }

    fn update_rpm(&mut self)
        requires
            old(self).wf(),
        ensures
            final(self).wf(),
            *final(self) == old(self).after_rpm(),
    {
        let rpm = engine_speed(self.accelerator_position, self.fuel_level > 0 && self.ignition);
        self.engine_rpm = (rpm / 1000) as u32;
        self.transmission_rpm = geared_speed(rpm, self.gear.ratio(self.profile.gears), self.clutch_position);
    }

    /// Engine speed in whole rpm.
    pub fn rpm(&self) -> (r: u32)
        ensures
            r == self.engine_rpm,
    {
        self.engine_rpm
    }

    fn update_speed(&mut self)
        requires
            old(self).wf(),
        ensures
            final(self).wf(),
            *final(self) == old(self).after_speed(),
    {
        let t = self.transmission_rpm;
        let trans_abs: u64 = if t < 0 {
            (-t) as u64
        } else {
            t as u64
        };
        let sample = road_speed(trans_abs, self.effective_braking, 0);
        let coasting = !self.ignition || self.clutch_position > CLUTCH_BITE;
        self.speed = speed_update(
            &mut self.speed_window,
            self.speed,
            coasting,
            self.accelerator_position,
            self.effective_braking,
            sample,
            self.profile.speed_alpha,
        );
    }

    /// Speed in millionths of a km/h.
    pub fn speed(&self) -> (r: u64)
        ensures
            r == self.speed,
    {
        self.speed
    }

    fn update_fuel(&mut self)
        requires
            old(self).wf(),
        ensures
            final(self).wf(),
            *final(self) == old(self).after_fuel(),
    {
        let burned = fuel_burn(self.engine_rpm, self.gear.ratio(self.profile.gears));
        self.fuel_level = self.fuel_level.saturating_sub(burned);
    }

    /// Adds `amount` (in fractions of `LEVEL_UNIT`) to the tank; the level
    /// wraps round at a full tank rather than stopping there.
    pub fn refuel(&mut self, amount: u64)
        requires
            old(self).wf(),
        ensures
            final(self).wf(),
            final(self).fuel_level == (old(self).fuel_level + amount) % (LEVEL_UNIT as int),
            *final(self) == (CombustionCar { fuel_level: final(self).fuel_level, ..*old(self) }),
    {
        self.fuel_level = ((self.fuel_level as u128 + amount as u128) % LEVEL_UNIT as u128) as u64;
    }

    /// Fuel level, in fractions of `LEVEL_UNIT`.
    pub fn fuel_level(&self) -> (r: u64)
        ensures
            r == self.fuel_level,
    {
        self.fuel_level
    }

    /// Advances the car by one tick: engine, braking, speed, then fuel.
    pub fn update(&mut self)
        requires
            old(self).wf(),
        ensures
            final(self).wf(),
            *final(self) == old(self).ticked(),
            final(self).fuel_level <= old(self).fuel_level,
    {
        self.update_rpm();
        self.update_braking();
        self.update_speed();
        self.update_fuel();
    }

    pub fn turn_key(&mut self, ignition: bool)
        requires
            old(self).wf(),
        ensures
            final(self).wf(),
            *final(self) == (CombustionCar { ignition, ..*old(self) }),
    {
        self.ignition = ignition;
    }

    pub fn ignition(&self) -> (r: bool)
        ensures
            r == self.ignition,
    {
        self.ignition
    }
}

} // verus!
