//! Engine speed, transmission speed, power output and energy use.
use vstd::prelude::*;

use crate::units::{
    BASE_RPM_MILLI, BSFC, CLUTCH_BITE, MAX_POWER_NANO_KW, MAX_RPM_MILLI, MAX_TORQUE, PI_E9, UNIT,
};

verus! {

/// Engine speed in thousandths of an rpm: the affine map from pedal position
/// to `[BASE_RPM, MAX_RPM]` while the engine runs, else 0.
pub open spec fn engine_rpm_milli(accelerator: int, running: bool) -> int {
    if running {
        BASE_RPM_MILLI + (MAX_RPM_MILLI - BASE_RPM_MILLI) * accelerator / (UNIT as int)
    } else {
        0
    }
}

/// Speed of the transmission in thousandths of an rpm, for a gear ratio in
/// millionths: negative in reverse, 0 while the clutch is open.
pub open spec fn geared_rpm_milli(rpm_milli: int, ratio: int, clutch: int) -> int {
    if clutch > CLUTCH_BITE {
        0
    } else if ratio < 0 {
        -(rpm_milli * -ratio / (UNIT as int))
    } else {
        rpm_milli * ratio / (UNIT as int)
    }
}

/// Power output in billionths of a kW: `rpm · torque · 2π / 60000`, capped at
/// the maximum power.
pub open spec fn power_output(rpm: int) -> int {
    let p = rpm * MAX_TORQUE * 2 * PI_E9 / 60_000;
    if p < MAX_POWER_NANO_KW { p } else { MAX_POWER_NANO_KW as int }
}

/// Charge used in one tick, in billionths: `power · 5 / 3600`.
pub open spec fn charge_used(rpm: int) -> int {
    power_output(rpm) * 5 / 3600
}

/// Fuel burned in one tick, in units of `LEVEL_UNIT`:
/// `power · 5 / |ratio| · BSFC · 1e-10`. A zero ratio (neutral) transmits
/// no load and burns nothing.
pub open spec fn fuel_burned(rpm: int, ratio: int) -> int {
    let r = if ratio < 0 { -ratio } else { ratio };
    if r == 0 {
        0
    } else {
        power_output(rpm) * 5 * BSFC * 100_000 / r
    }
}

/// Engine speed in thousandths of an rpm for a pedal position (a fraction of
/// `UNIT`); `running` is false without ignition or without energy.
pub fn engine_speed(accelerator: u64, running: bool) -> (r: u64)
    requires
        accelerator <= UNIT,
    ensures
        r == engine_rpm_milli(accelerator as int, running),
        r <= MAX_RPM_MILLI,
        running ==> r >= BASE_RPM_MILLI,
{
    if running {
        proof {
            assert((MAX_RPM_MILLI - BASE_RPM_MILLI) * accelerator <= (MAX_RPM_MILLI - BASE_RPM_MILLI)
                * UNIT) by (nonlinear_arith)
                requires
                    accelerator <= UNIT,
            ;
            assert((MAX_RPM_MILLI - BASE_RPM_MILLI) * accelerator / (UNIT as int) <= (MAX_RPM_MILLI
                - BASE_RPM_MILLI)) by (nonlinear_arith)
                requires
                    (MAX_RPM_MILLI - BASE_RPM_MILLI) * accelerator <= (MAX_RPM_MILLI - BASE_RPM_MILLI)
                        * UNIT,
            ;
        }
        BASE_RPM_MILLI + (MAX_RPM_MILLI - BASE_RPM_MILLI) * accelerator / UNIT
    } else {
        0
    }
}

/// Transmission speed in thousandths of an rpm, from the engine speed, the
/// gear ratio in millionths and the clutch position.
pub fn geared_speed(rpm_milli: u64, ratio: i64, clutch: u64) -> (r: i64)
    requires
        rpm_milli <= MAX_RPM_MILLI,
        -(UNIT as int) <= ratio <= 3 * UNIT,
    ensures
        r == geared_rpm_milli(rpm_milli as int, ratio as int, clutch as int),
        -(MAX_RPM_MILLI as int) <= r <= 3 * MAX_RPM_MILLI,
{
    if clutch > CLUTCH_BITE {
        0
    } else if ratio < 0 {
        let m: u64 = (-ratio) as u64;
        proof {
            assert(rpm_milli * m <= MAX_RPM_MILLI * UNIT) by (nonlinear_arith)
                requires
                    rpm_milli <= MAX_RPM_MILLI,
                    m <= UNIT,
            ;
            assert(rpm_milli * m / (UNIT as int) <= MAX_RPM_MILLI) by (nonlinear_arith)
                requires
                    rpm_milli * m <= MAX_RPM_MILLI * UNIT,
            ;
        }
        -((rpm_milli * m / UNIT) as i64)
    } else {
        let m: u64 = ratio as u64;
        proof {
            assert(rpm_milli * m <= MAX_RPM_MILLI * (3 * UNIT)) by (nonlinear_arith)
                requires
                    rpm_milli <= MAX_RPM_MILLI,
                    m <= 3 * UNIT,
            ;
            assert(rpm_milli * m / (UNIT as int) <= 3 * MAX_RPM_MILLI) by (nonlinear_arith)
                requires
                    rpm_milli * m <= MAX_RPM_MILLI * (3 * UNIT),
            ;
        }
        (rpm_milli * m / UNIT) as i64
    }
}

/// Power output in billionths of a kW at an engine speed in rpm.
pub fn power(rpm: u32) -> (r: u64)
    ensures
        r == power_output(rpm as int),
        r <= MAX_POWER_NANO_KW,
{
    proof {
        assert(rpm * MAX_TORQUE * 2 * PI_E9 <= 0xffff_ffffu32 * MAX_TORQUE * 2 * PI_E9)
            by (nonlinear_arith);
    }
    let p: u128 = rpm as u128 * MAX_TORQUE as u128 * 2 * PI_E9 as u128 / 60_000;
    if p < MAX_POWER_NANO_KW as u128 {
        p as u64
    } else {
        MAX_POWER_NANO_KW
    }
}

/// Charge used in one tick, in billionths, at an engine speed in rpm.
pub fn charge_use(rpm: u32) -> (r: u64)
    ensures
        r == charge_used(rpm as int),
        r <= MAX_POWER_NANO_KW * 5 / 3600,
{
    power(rpm) * 5 / 3600
}

/// Fuel burned in one tick, in units of `LEVEL_UNIT`, at an engine speed in
/// rpm and a gear ratio in millionths.
pub fn fuel_burn(rpm: u32, ratio: i64) -> (r: u64)
    requires
        -(UNIT as int) <= ratio <= 3 * UNIT,
    ensures
        r == fuel_burned(rpm as int, ratio as int),
{
    let m: u64 = if ratio < 0 {
        (-ratio) as u64
    } else {
        ratio as u64
    };
    if m == 0 {
        0
    } else {
        let p = power(rpm);
        proof {
            assert(p * 5 * BSFC * 100_000 / (m as int) <= p * 5 * BSFC * 100_000) by (nonlinear_arith)
                requires
                    m >= 1,
                    p >= 0,
            ;
        }
        (p as u128 * 5 * BSFC as u128 * 100_000 / m as u128) as u64
    }
}

} // verus!
