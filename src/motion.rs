//! Braking and road speed: the two smoothed stages of a tick.
use vstd::prelude::*;

use crate::smoothing::SmoothingWindow;
use crate::units::{
    BRAKING_THRESHOLD, COAST_KEEP, MAX_RPM_MILLI, SPEED_FACTOR, STOP_BRAKING, STOP_SPEED, UNIT,
};

verus! {

/// Raw road speed in millionths of a km/h: `|transmission rpm| · SPEED_FACTOR`
/// scaled down by `(1 − braking)` and by `(1 − holding)`, both fractions of `UNIT`.
pub open spec fn speed_sample(trans_abs: int, braking: int, holding: int) -> int {
    trans_abs * SPEED_FACTOR * (UNIT - braking) * (UNIT - holding) / (1_000_000_000 * UNIT * UNIT)
}

/// Speed after one tick of coasting: `speed · (0.97 − braking)`, the factor
/// taken as 0 where braking exceeds 0.97.
pub open spec fn coasted(speed: int, braking: int) -> int {
    let keep = if braking < COAST_KEEP { COAST_KEEP - braking } else { 0 };
    speed * keep / (UNIT as int)
}

/// The braking window after a tick with merged braking `braking`: samples
/// above the threshold are pushed, any braking is smoothed, and no braking
/// clears the window. Its `previous` slot is the effective braking.
pub open spec fn braking_step(w: SmoothingWindow, braking: int, alpha: int) -> SmoothingWindow {
    if braking > 0 {
        let pushed = if braking > BRAKING_THRESHOLD {
            SmoothingWindow { previous: w.previous, latest: braking as u64 }
        } else {
            w
        };
        pushed.smoothed(alpha)
    } else {
        SmoothingWindow::empty()
    }
}

/// Whether a car without throttle comes to a clean stop.
pub open spec fn stops(speed: int, accelerator: int, braking: int) -> bool {
    accelerator == 0 && (speed < STOP_SPEED || braking > STOP_BRAKING)
}

/// The speed window after a tick: only a driven tick feeds it.
pub open spec fn speed_window_step(
    w: SmoothingWindow,
    speed: int,
    coasting: bool,
    accelerator: int,
    braking: int,
    sample: int,
    alpha: int,
) -> SmoothingWindow {
    if coasting || stops(speed, accelerator, braking) {
        w
    } else {
        SmoothingWindow { previous: w.previous, latest: sample as u64 }.smoothed(alpha)
    }
}

/// The published speed after a tick: coasting decays it, a clean stop zeroes
/// it, and otherwise it is the smoothed raw sample.
pub open spec fn speed_step(
    w: SmoothingWindow,
    speed: int,
    coasting: bool,
    accelerator: int,
    braking: int,
    sample: int,
    alpha: int,
) -> int {
    if coasting {
        coasted(speed, braking)
    } else if stops(speed, accelerator, braking) {
        0
    } else {
        speed_window_step(w, speed, coasting, accelerator, braking, sample, alpha).previous as int
    }
}

/// Raw road speed in millionths of a km/h for a transmission speed magnitude
/// in thousandths of an rpm.
pub fn road_speed(trans_abs: u64, braking: u64, holding: u64) -> (r: u64)
    requires
        trans_abs <= 3 * MAX_RPM_MILLI,
        braking <= UNIT,
        holding <= UNIT,
    ensures
        r == speed_sample(trans_abs as int, braking as int, holding as int),
{
    let a: u64 = UNIT - braking;
    let b: u64 = UNIT - holding;
    proof {
        assert(SPEED_FACTOR == 15_079_644_739);
        assert(trans_abs * SPEED_FACTOR <= 3 * MAX_RPM_MILLI * SPEED_FACTOR) by (nonlinear_arith)
            requires
                trans_abs <= 3 * MAX_RPM_MILLI,
        ;
        assert(trans_abs * SPEED_FACTOR * a <= 3 * MAX_RPM_MILLI * SPEED_FACTOR * UNIT)
            by (nonlinear_arith)
            requires
                trans_abs * SPEED_FACTOR <= 3 * MAX_RPM_MILLI * SPEED_FACTOR,
                a <= UNIT,
        ;
        assert(trans_abs * SPEED_FACTOR * a * b <= 3 * MAX_RPM_MILLI * SPEED_FACTOR * UNIT * UNIT)
            by (nonlinear_arith)
            requires
                trans_abs * SPEED_FACTOR * a <= 3 * MAX_RPM_MILLI * SPEED_FACTOR * UNIT,
                b <= UNIT,
        ;
        assert(trans_abs * SPEED_FACTOR * a * b / (1_000_000_000 * UNIT * UNIT) <= 3 * MAX_RPM_MILLI
            * SPEED_FACTOR) by (nonlinear_arith)
            requires
                trans_abs * SPEED_FACTOR * a * b <= 3 * MAX_RPM_MILLI * SPEED_FACTOR * UNIT * UNIT,
        ;
    }
    let x: u128 = trans_abs as u128 * SPEED_FACTOR as u128 * a as u128 * b as u128;
    (x / (1_000_000_000 * UNIT as u128 * UNIT as u128)) as u64
}

/// One tick of coasting.
pub fn coast(speed: u64, braking: u64) -> (r: u64)
    ensures
        r == coasted(speed as int, braking as int),
        r <= speed,
{
    let keep: u64 = if braking < COAST_KEEP {
        COAST_KEEP - braking
    } else {
        0
    };
    proof {
        assert(speed * keep / (UNIT as int) <= speed) by (nonlinear_arith)
            requires
                keep <= UNIT,
        ;
        assert(speed * keep <= 0xffff_ffff_ffff_ffffu64 * UNIT) by (nonlinear_arith)
            requires
                keep <= UNIT,
        ;
    }
    (speed as u128 * keep as u128 / UNIT as u128) as u64
}

/// Feeds merged braking into the braking window, smoothing with `alpha`,
/// and returns the effective braking.
pub fn brake_step(w: &mut SmoothingWindow, braking: u64, alpha: u64) -> (r: u64)
    requires
        old(w).previous <= UNIT,
        old(w).latest <= UNIT,
        braking <= UNIT,
        alpha <= UNIT,
    ensures
        *final(w) == braking_step(*old(w), braking as int, alpha as int),
        r == final(w).previous,
        r <= UNIT,
        final(w).latest <= UNIT,
{
    if braking > BRAKING_THRESHOLD {
        w.push(braking);
    }
    if braking > 0 {
        w.smooth(alpha)
    } else {
        w.reset();
        0
    }
}

/// Advances the speed window and returns the published speed. `coasting`
/// holds while the drivetrain is disconnected or the ignition is off;
/// `sample` is the raw road speed of this tick, smoothed with `alpha`.
pub fn speed_update(
    w: &mut SmoothingWindow,
    speed: u64,
    coasting: bool,
    accelerator: u64,
    braking: u64,
    sample: u64,
    alpha: u64,
) -> (r: u64)
    requires
        alpha <= UNIT,
    ensures
        *final(w) == speed_window_step(
            *old(w),
            speed as int,
            coasting,
            accelerator as int,
            braking as int,
            sample as int,
            alpha as int,
        ),
        r == speed_step(
            *old(w),
            speed as int,
            coasting,
            accelerator as int,
            braking as int,
            sample as int,
            alpha as int,
        ),
{
    if coasting {
        coast(speed, braking)
    } else if accelerator == 0 && (speed < STOP_SPEED || braking > STOP_BRAKING) {
        0
    } else {
        w.push(sample);
        w.smooth(alpha)
    }
}

} // verus!
