//! The electric car: motor, braking, speed and battery, advanced one tick at a time.
use vstd::prelude::*;

use crate::controls::{handbrake_share, merged_braking, GearTable, HandBrake};
use crate::motion::{
    brake_step, braking_step, road_speed, speed_sample, speed_step, speed_update,
    speed_window_step,
};
use crate::powertrain::{charge_use, charge_used, engine_rpm_milli, engine_speed};
use crate::profile::Profile;
use crate::smoothing::{ema, SmoothingWindow};
use crate::units::{
    BRAKING_ALPHA, SPEED_ALPHA,
    FAST_CHARGE, HEALTH_STEP, LEVEL_UNIT, LOW_CHARGE, MAX_RPM_MILLI,
    TICKS_PER_HOUR, UNIT,
};

verus! {

/// Battery health after one penalty of `HEALTH_STEP`; health never falls
/// below the smallest positive level.
pub open spec fn worn(soh: int) -> int {
    if soh > HEALTH_STEP {
        soh - HEALTH_STEP
    } else {
        1
    }
}

/// Wears battery health by one penalty.
fn wear(soh: u64) -> (r: u64)
    ensures
        r == worn(soh as int),
{
    if soh > HEALTH_STEP {
        soh - HEALTH_STEP
    } else {
        1
    }
}

/// An electric car. Speeds are in millionths of a km/h, distance in
/// millionths of a km, pedal positions and braking in fractions of `UNIT`,
/// charge and health in fractions of `LEVEL_UNIT`, energy used in billionths.
pub struct Car {
    pub speed_window: SmoothingWindow,
    pub braking_window: SmoothingWindow,
    /// effective value after brake has been applied
    pub effective_braking: u64,
    pub speed: u64,
    pub motor_rpm: u32,
    /// thousandths of an rpm
    pub transmission_rpm: i64,
    pub accelerator_position: u64,
    pub brake_position: u64,
    pub hand_brake: HandBrake,
    pub distance_travelled: u64,
    pub energy_consumed: u64,
    pub soc: u64,
    pub soh: u64,
    pub ignition: bool,
    pub profile: Profile,
    pub status: String,
}

impl Car {
    /// The car's invariant: levels in range, one pedal at a time, and the
    /// braking window's smoothed slot publishing the effective braking.
    pub open spec fn wf(&self) -> bool {
        &&& 0 < self.soh <= LEVEL_UNIT
        &&& self.soc <= self.soh
        &&& self.accelerator_position <= UNIT
        &&& self.brake_position <= UNIT
        &&& (self.accelerator_position > 0 ==> self.brake_position == 0)
        &&& (self.brake_position > 0 ==> self.accelerator_position == 0)
        &&& self.effective_braking <= UNIT
        &&& self.braking_window.previous == self.effective_braking
        &&& self.braking_window.latest <= UNIT
        &&& self.profile.wf()
        &&& 0 <= self.transmission_rpm <= MAX_RPM_MILLI
        &&& self.motor_rpm <= 5000
    }

    /// Engine stage: motor speed from the pedal, zero without ignition or charge.
    pub open spec fn after_rpm(self) -> Car {
        let rpm = engine_rpm_milli(self.accelerator_position as int, self.soc > 0 && self.ignition);
        Car { motor_rpm: (rpm / 1000) as u32, transmission_rpm: rpm as i64, ..self }
    }

    /// Braking stage: pedal and handbrake merged and smoothed.
    pub open spec fn after_braking(self) -> Car {
        let w = braking_step(self.braking_window, merged_braking(self.brake_position as int, self.hand_brake), self.profile.braking_alpha as int);
        Car { braking_window: w, effective_braking: w.previous, ..self }
    }

    /// Raw road speed of this tick, held back by braking and by the handbrake.
    pub open spec fn sample(self) -> int {
        speed_sample(self.transmission_rpm as int, self.effective_braking as int, handbrake_share(self.hand_brake))
    }

    /// Speed stage: coasting without ignition, else stop or smoothed speed;
    /// then, in every tick, distance and the wear of low charge.
    pub open spec fn after_speed(self) -> Car {
        let speed = speed_step(
            self.speed_window,
            self.speed as int,
            !self.ignition,
            self.accelerator_position as int,
            self.effective_braking as int,
            self.sample(),
            self.profile.speed_alpha as int,
        ) as u64;
        let window = speed_window_step(
            self.speed_window,
            self.speed as int,
            !self.ignition,
            self.accelerator_position as int,
            self.effective_braking as int,
            self.sample(),
            self.profile.speed_alpha as int,
        );
        let soh = if self.soc < LOW_CHARGE { worn(self.soh as int) as u64 } else { self.soh };
        Car {
            speed,
            speed_window: window,
            distance_travelled: self.distance_travelled.saturating_add(speed / TICKS_PER_HOUR),
            soh,
            soc: if self.soc <= soh { self.soc } else { soh },
            ..self
        }
    }

    /// Energy stage: charge used by the motor, subtracted from the state of
    /// charge at a scale of 1e-10.
    pub open spec fn after_charge(self) -> Car {
        let used = charge_used(self.motor_rpm as int);
        Car {
            energy_consumed: self.energy_consumed.saturating_add(used as u64),
            soc: self.soc.saturating_sub((used / 10) as u64),
            ..self
        }
    }

    /// The car after one tick.
    pub open spec fn ticked(self) -> Car {
        self.after_rpm().after_braking().after_speed().after_charge()
    }

    /// The car after `n` ticks with unchanged controls.
    pub open spec fn ticks(self, n: nat) -> Car
        decreases n,
    {
        if n == 0 {
            self
        } else {
            self.ticked().ticks((n - 1) as nat)
        }
    }

    /// A car of the standard profile at rest with the given state of charge
    /// and health, ignition off and handbrake fully on.
    pub fn new(soc: u64, soh: u64) -> (r: Car)
        requires
            0 < soh <= LEVEL_UNIT,
            soc <= soh,
        ensures
            r.wf(),
            r.soc == soc,
            r.soh == soh,
            r.speed == 0,
            r.motor_rpm == 0,
            r.accelerator_position == 0,
            r.brake_position == 0,
            r.hand_brake == HandBrake::Full,
            !r.ignition,
            r.distance_travelled == 0,
            r.energy_consumed == 0,
            r.effective_braking == 0,
            r.speed_window == SmoothingWindow::empty(),
            r.braking_window == SmoothingWindow::empty(),
            r.status@ == Seq::<char>::empty(),
            r.profile == (Profile { speed_alpha: SPEED_ALPHA, braking_alpha: BRAKING_ALPHA, gears: GearTable::Torque }),
    {
        Car::with_profile(soc, soh, Profile::standard())
    }

    /// A car of the given profile at rest with the given state of charge and
    /// health, ignition off and handbrake fully on.
    pub fn with_profile(soc: u64, soh: u64, profile: Profile) -> (r: Car)
        requires
            0 < soh <= LEVEL_UNIT,
            soc <= soh,
            profile.wf(),
        ensures
            r.wf(),
            r.profile == profile,
            r.soc == soc,
            r.speed_window == SmoothingWindow::empty(),
            r.braking_window == SmoothingWindow::empty(),
            r.soh == soh,
            r.speed == 0,
            r.motor_rpm == 0,
            r.accelerator_position == 0,
            r.brake_position == 0,
            r.hand_brake == HandBrake::Full,
            !r.ignition,
            r.distance_travelled == 0,
            r.energy_consumed == 0,
            r.effective_braking == 0,
            r.status@ == Seq::<char>::empty(),
    {
        Car {
            speed_window: SmoothingWindow::new(),
            braking_window: SmoothingWindow::new(),
            effective_braking: 0,
            speed: 0,
            motor_rpm: 0,
            transmission_rpm: 0,
            accelerator_position: 0,
            brake_position: 0,
            hand_brake: HandBrake::Full,
            distance_travelled: 0,
            energy_consumed: 0,
            soc,
            soh,
            ignition: false,
            profile,
            status: String::new(),
        }
    }

    pub fn set_status(&mut self, status: &str)
        ensures
            final(self).status@ == status@,
            *final(self) == (Car { status: final(self).status, ..*old(self) }),
    {
        self.status = status.to_owned();
    }

    pub fn get_status(&self) -> (r: &str)
        ensures
            r@ == self.status@,
    {
        self.status.as_str()
    }

    /// State of health, in fractions of `LEVEL_UNIT`.
    pub fn soh(&self) -> (r: u64)
        ensures
            r == self.soh,
    {
        self.soh
    }

    /// Distance travelled, in millionths of a km.
    pub fn distance_travelled(&self) -> (r: u64)
        ensures
            r == self.distance_travelled,
    {
        self.distance_travelled
    }

    /// Energy consumed, in billionths.
    pub fn energy_consumed(&self) -> (r: u64)
        ensures
            r == self.energy_consumed,
    {
        self.energy_consumed
    }

    /// Smoothed braking applied in the last tick, in fractions of `UNIT`.
    pub fn effective_braking(&self) -> (r: u64)
        ensures
            r == self.effective_braking,
    {
        self.effective_braking
    }

    /// Presses the accelerator to `position` and releases the brake.
    pub fn set_accelerator_position(&mut self, position: u64)
        requires
            old(self).wf(),
            position <= UNIT,
        ensures
            final(self).wf(),
            *final(self) == (Car { accelerator_position: position, brake_position: 0, ..*old(self) }),
    {
        self.accelerator_position = position;
        self.brake_position = 0;
    }

    pub fn accelerator_position(&self) -> (r: u64)
        ensures
            r == self.accelerator_position,
    {
        self.accelerator_position
    }

    /// Smooths the braking window, publishes the result as the effective
    /// braking and returns it.
    pub fn smooth_braking(&mut self) -> (r: u64)
        requires
            old(self).wf(),
        ensures
            final(self).wf(),
            r == ema(old(self).braking_window.previous as int, old(self).braking_window.latest as int, old(self).profile.braking_alpha as int),
            *final(self) == (Car {
                braking_window: old(self).braking_window.smoothed(old(self).profile.braking_alpha as int),
                effective_braking: r,
                ..*old(self)
            }),
    {
        let r = self.braking_window.smooth(self.profile.braking_alpha);
        self.effective_braking = r;
        r
    }

    /// Presses the brake to `position` and releases the accelerator.
    pub fn set_brake_position(&mut self, position: u64)
        requires
            old(self).wf(),
            position <= UNIT,
        ensures
            final(self).wf(),
            *final(self) == (Car { brake_position: position, accelerator_position: 0, ..*old(self) }),
    {
        self.brake_position = position;
        self.accelerator_position = 0;
    }

    /// Merges pedal and handbrake into the braking window and publishes the
    /// smoothed effective braking.
    pub fn update_braking(&mut self)
        requires
            old(self).wf(),
        ensures
            final(self).wf(),
            *final(self) == old(self).after_braking(),
    {
        let braking = self.hand_brake.merge(self.brake_position);
        self.effective_braking = brake_step(&mut self.braking_window, braking, self.profile.braking_alpha);
    }

    pub fn brake_position(&self) -> (r: u64)
        ensures
            r == self.brake_position,
    {
        self.brake_position
    }

    pub fn set_handbrake_position(&mut self, position: HandBrake)
        requires
            old(self).wf(),
        ensures
            final(self).wf(),
            *final(self) == (Car { hand_brake: position, ..*old(self) }),
    {
        self.hand_brake = position;
    }

    pub fn hand_brake(&self) -> (r: &HandBrake)
        ensures
            *r == self.hand_brake,
    {
        &self.hand_brake
    }

    fn update_rpm(&mut self)
        requires
            old(self).wf(),
        ensures
            final(self).wf(),
            *final(self) == old(self).after_rpm(),
    {
        let rpm = engine_speed(self.accelerator_position, self.soc > 0 && self.ignition);
        self.motor_rpm = (rpm / 1000) as u32;
        self.transmission_rpm = rpm as i64;
    }

    /// Motor speed in whole rpm.
    pub fn rpm(&self) -> (r: u32)
        ensures
            r == self.motor_rpm,
    {
        self.motor_rpm
    }

    fn update_speed(&mut self)
        requires
            old(self).wf(),
        ensures
            final(self).wf(),
            *final(self) == old(self).after_speed(),
    {
        let holding: u64 = match self.hand_brake.effect() {
            Some(e) => e,
            None => 0,
        };
        let sample = road_speed(self.transmission_rpm as u64, self.effective_braking, holding);
        let speed = speed_update(
            &mut self.speed_window,
            self.speed,
            !self.ignition,
            self.accelerator_position,
            self.effective_braking,
            sample,
            self.profile.speed_alpha,
        );
        self.speed = speed;
        self.distance_travelled = self.distance_travelled.saturating_add(speed / TICKS_PER_HOUR);
        // low charge driving affects health
        if self.soc < LOW_CHARGE {
            self.soh = wear(self.soh);
            if self.soc > self.soh {
                self.soc = self.soh;
            }
        }
    }

    /// Speed in millionths of a km/h.
    pub fn speed(&self) -> (r: u64)
        ensures
            r == self.speed,
    {
        self.speed
    }

    /// Charges the battery for the motor's output over one tick.
    pub fn update_charge(&mut self)
        requires
            old(self).wf(),
        ensures
            final(self).wf(),
            *final(self) == old(self).after_charge(),
    {
        let used = charge_use(self.motor_rpm);
        self.energy_consumed = self.energy_consumed.saturating_add(used);
        self.soc = self.soc.saturating_sub(used / 10);
    }

    /// Adds `charge` (in fractions of `LEVEL_UNIT`) to the battery; the state
    /// of charge wraps at the state of health. A charge above 0.02 is fast
    /// charging and costs one health penalty first.
    pub fn charge(&mut self, charge: u64)
        requires
            old(self).wf(),
        ensures
            final(self).wf(),
            final(self).soh == if charge > FAST_CHARGE { worn(old(self).soh as int) } else { old(self).soh as int },
            final(self).soc == (old(self).soc + charge) % (final(self).soh as int),
            *final(self) == (Car { soc: final(self).soc, soh: final(self).soh, ..*old(self) }),
    {
        // fast charging can also ruin health
        if charge > FAST_CHARGE {
            self.soh = wear(self.soh);
        }
        self.soc = ((self.soc as u128 + charge as u128) % self.soh as u128) as u64;
    }

    /// State of charge, in fractions of `LEVEL_UNIT`.
    pub fn soc(&self) -> (r: u64)
        ensures
            r == self.soc,
    {
        self.soc
    }

    /// Advances the car by one tick: motor, braking, speed, then charge.
    pub fn update(&mut self)
        requires
            old(self).wf(),
        ensures
            final(self).wf(),
            *final(self) == old(self).ticked(),
            final(self).soc <= old(self).soc,
            final(self).soh <= old(self).soh,
    {
        self.update_rpm();
        self.update_braking();
        self.update_speed();
        self.update_charge();
    }

    pub fn turn_key(&mut self, ignition: bool)
        requires
            old(self).wf(),
        ensures
            final(self).wf(),
            final(self).ignition == ignition,
            final(self).status@ == (if ignition { "Running"@ } else { "Stopped"@ }),
            *final(self) == (Car { ignition, status: final(self).status, ..*old(self) }),
    {
        self.status = if ignition {
            "Running"
        } else {
            "Stopped"
        }.to_owned();
        self.ignition = ignition;
    }

    pub fn ignition(&self) -> (r: bool)
        ensures
            r == self.ignition,
    {
        self.ignition
    }
}

} // verus!
