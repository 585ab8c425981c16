//! Fixed-point scales and the vehicle's physical constants.
//!
//! Every quantity is an integer in a stated unit, so that each formula of the
//! model can be computed exactly and shown free of overflow.
use vstd::prelude::*;

verus! {

/// A fraction in `[0, 1]` (pedal positions, braking, smoothing factors):
/// `UNIT` stands for 1.0, so one step is one millionth.
pub const UNIT: u64 = 1_000_000;

/// An energy level in `[0, 1]` (fuel level, state of charge, state of health):
/// `LEVEL_UNIT` stands for 1.0. Depletion per tick is of the order of 1e-11,
/// so levels need this finer scale.
pub const LEVEL_UNIT: u64 = 1_000_000_000_000_000_000;

/// Loss of battery health per penalised tick or fast charge: 2^-8 of a full level.
pub const HEALTH_STEP: u64 = 3_906_250_000_000_000;

/// A charge above this amount (0.02 of a full level) counts as fast charging.
pub const FAST_CHARGE: u64 = 20_000_000_000_000_000;

/// Below this state of charge (0.10 of a full level) driving wears the battery.
pub const LOW_CHARGE: u64 = 100_000_000_000_000_000;

/// Idle engine speed, in thousandths of a revolution per minute (750 rpm).
pub const BASE_RPM_MILLI: u64 = 750_000;

/// Engine speed at full throttle, in thousandths of a revolution per minute (5000 rpm).
pub const MAX_RPM_MILLI: u64 = 5_000_000;

/// π, in billionths.
pub const PI_E9: u64 = 3_141_592_654;

/// Wheel radius in millimetres (0.4 m).
pub const WHEEL_RADIUS_MM: u64 = 400;

/// Conversion of engine speed to road speed, `2π · radius · 0.006`,
/// in 1e-12 km/h per rpm.
pub const SPEED_FACTOR: u64 = 2 * PI_E9 * WHEEL_RADIUS_MM * 6 / 1000;

/// Smoothing factor of the speed filter (0.5).
pub const SPEED_ALPHA: u64 = 500_000;

/// Smoothing factor of the braking filter (0.5).
pub const BRAKING_ALPHA: u64 = 500_000;

/// Braking samples at or below this fraction (0.1) are not fed to the filter.
pub const BRAKING_THRESHOLD: u64 = 100_000;

/// Braking above this fraction (0.75) brings a car without throttle to a stop.
pub const STOP_BRAKING: u64 = 750_000;

/// Below this speed (3 km/h, in millionths of a km/h) a car without throttle stops.
pub const STOP_SPEED: u64 = 3_000_000;

/// Share of speed kept per tick when coasting (0.97).
pub const COAST_KEEP: u64 = 970_000;

/// Clutch positions above this fraction (0.5) disconnect the drivetrain.
pub const CLUTCH_BITE: u64 = 500_000;

/// Maximum power in billionths of a kilowatt (100 kW).
pub const MAX_POWER_NANO_KW: u64 = 100_000_000_000;

/// Maximum torque in newton metres.
pub const MAX_TORQUE: u64 = 200;

/// Brake specific fuel consumption in g/kWh.
pub const BSFC: u64 = 180;

/// Ticks per hour: one tick is one second of simulated time.
pub const TICKS_PER_HOUR: u64 = 3600;

} // verus!
