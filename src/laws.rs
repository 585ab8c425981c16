//! Properties of the tick that hold for every car and every number of ticks.
use vstd::arithmetic::power::{lemma_pow_positive, pow};
use vstd::arithmetic::power2::{lemma2_to64, lemma_pow2_unfold, pow2};
use vstd::prelude::*;

use crate::combustion::CombustionCar;
use crate::controls::{gear_ratio, merged_braking, HandBrake};
use crate::electric::Car;
use crate::motion::{braking_step, coasted};
use crate::powertrain::{engine_rpm_milli, geared_rpm_milli};
use crate::smoothing::{ema, lemma_ema_between, SmoothingWindow};
use crate::units::{BRAKING_THRESHOLD, CLUTCH_BITE, COAST_KEEP, LEVEL_UNIT, MAX_RPM_MILLI, STOP_SPEED, UNIT};

verus! {

proof fn lemma_engine_bounded(accelerator: int, running: bool)
    requires
        0 <= accelerator <= UNIT,
    ensures
        0 <= engine_rpm_milli(accelerator, running) <= MAX_RPM_MILLI,
{
    assert(0 <= 4_250_000 * accelerator / 1_000_000 <= 4_250_000) by (nonlinear_arith)
        requires
            0 <= accelerator <= 1_000_000,
    ;
}

proof fn lemma_geared_bounded(rpm: int, ratio: int, clutch: int)
    requires
        0 <= rpm <= MAX_RPM_MILLI,
        -(UNIT as int) <= ratio <= 3 * UNIT,
    ensures
        -(MAX_RPM_MILLI as int) <= geared_rpm_milli(rpm, ratio, clutch) <= 3 * MAX_RPM_MILLI,
{
    if ratio < 0 {
        assert(0 <= rpm * -ratio / 1_000_000 <= 5_000_000) by (nonlinear_arith)
            requires
                0 <= rpm <= 5_000_000,
                0 < -ratio <= 1_000_000,
        ;
    } else {
        assert(0 <= rpm * ratio / 1_000_000 <= 15_000_000) by (nonlinear_arith)
            requires
                0 <= rpm <= 5_000_000,
                0 <= ratio <= 3_000_000,
        ;
    }
}

proof fn lemma_braking_bounded(w: SmoothingWindow, brake: int, h: HandBrake, alpha: int)
    requires
        w.previous <= UNIT,
        w.latest <= UNIT,
        0 <= brake <= UNIT,
        0 <= alpha <= UNIT,
    ensures
        braking_step(w, merged_braking(brake, h), alpha).previous <= UNIT,
        braking_step(w, merged_braking(brake, h), alpha).latest <= UNIT,
{
    let b = merged_braking(brake, h);
    if b > 0 {
        let p = if b > BRAKING_THRESHOLD { b } else { w.latest as int };
        lemma_ema_between(w.previous as int, p, alpha);
    }
}

/// One tick of an electric car keeps its invariant and its controls, and
/// neither charge nor health rises.
pub proof fn lemma_car_tick(car: Car)
    requires
        car.wf(),
    ensures
        car.ticked().wf(),
        car.ticked().soc <= car.soc,
        car.ticked().soh <= car.soh,
        car.ticked().hand_brake == car.hand_brake,
        car.ticked().brake_position == car.brake_position,
        car.ticked().accelerator_position == car.accelerator_position,
        car.ticked().ignition == car.ignition,
{
    lemma_engine_bounded(car.accelerator_position as int, car.soc > 0 && car.ignition);
    let c1 = car.after_rpm();
    lemma_braking_bounded(
        c1.braking_window,
        c1.brake_position as int,
        c1.hand_brake,
        c1.profile.braking_alpha as int,
    );
}

/// One tick of a combustion car keeps its invariant and its controls, and
/// the fuel level does not rise.
pub proof fn lemma_combustion_tick(car: CombustionCar)
    requires
        car.wf(),
    ensures
        car.ticked().wf(),
        car.ticked().fuel_level <= car.fuel_level,
        car.ticked().hand_brake == car.hand_brake,
        car.ticked().brake_position == car.brake_position,
        car.ticked().accelerator_position == car.accelerator_position,
        car.ticked().ignition == car.ignition,
        car.ticked().clutch_position == car.clutch_position,
        car.ticked().gear == car.gear,
{
    let rpm = engine_rpm_milli(car.accelerator_position as int, car.fuel_level > 0 && car.ignition);
    lemma_engine_bounded(car.accelerator_position as int, car.fuel_level > 0 && car.ignition);
    lemma_geared_bounded(rpm, gear_ratio(car.profile.gears, car.gear), car.clutch_position as int);
    let c1 = car.after_rpm();
    lemma_braking_bounded(
        c1.braking_window,
        c1.brake_position as int,
        c1.hand_brake,
        c1.profile.braking_alpha as int,
    );
}

/// However many ticks pass, the state of charge of an electric car never rises.
pub proof fn lemma_charge_never_rises(car: Car, n: nat)
    requires
        car.wf(),
    ensures
        car.ticks(n).soc <= car.soc,
    decreases n,
{
    if n > 0 {
        lemma_car_tick(car);
        lemma_charge_never_rises(car.ticked(), (n - 1) as nat);
    }
}

/// However many ticks pass, the fuel level of a combustion car never rises.
pub proof fn lemma_fuel_never_rises(car: CombustionCar, n: nat)
    requires
        car.wf(),
    ensures
        car.ticks(n).fuel_level <= car.fuel_level,
    decreases n,
{
    if n > 0 {
        lemma_combustion_tick(car);
        lemma_fuel_never_rises(car.ticked(), (n - 1) as nat);
    }
}

/// After any number of ticks an electric car's levels stay in range: health
/// in `(0, 1]`, charge in `[0, health]`, and health never above where it began.
pub proof fn lemma_battery_stays_in_range(car: Car, n: nat)
    requires
        car.wf(),
    ensures
        car.ticks(n).wf(),
        0 < car.ticks(n).soh <= LEVEL_UNIT,
        car.ticks(n).soc <= car.ticks(n).soh,
        car.ticks(n).soh <= car.soh,
    decreases n,
{
    if n > 0 {
        lemma_car_tick(car);
        lemma_battery_stays_in_range(car.ticked(), (n - 1) as nat);
    }
}

/// After any number of ticks a combustion car's fuel level stays in `[0, 1]`.
pub proof fn lemma_fuel_stays_in_range(car: CombustionCar, n: nat)
    requires
        car.wf(),
    ensures
        car.ticks(n).wf(),
        car.ticks(n).fuel_level <= LEVEL_UNIT,
    decreases n,
{
    if n > 0 {
        lemma_combustion_tick(car);
        lemma_fuel_stays_in_range(car.ticked(), (n - 1) as nat);
    }
}

/// With the handbrake fully on and a braking filter of factor at least one
/// half, smoothing toward full braking halves the remaining gap (rounded
/// down) in every tick.
proof fn lemma_full_braking_halves_gap(w: SmoothingWindow, brake: int, alpha: int)
    requires
        w.previous <= UNIT,
        0 <= brake <= UNIT,
        UNIT / 2 <= alpha <= UNIT,
    ensures
        2 * (UNIT - braking_step(w, merged_braking(brake, HandBrake::Full), alpha).previous) <= UNIT
            - w.previous,
{
    assert(merged_braking(brake, HandBrake::Full) == UNIT);
    let p = w.previous as int;
    let g = UNIT - p;
    let x = (UNIT - alpha) * g;
    assert(alpha * UNIT + (UNIT - alpha) * p == UNIT * UNIT - x && 2 * x <= UNIT * g)
        by (nonlinear_arith)
        requires
            x == (UNIT - alpha) * g,
            g == UNIT - p,
            UNIT / 2 <= alpha <= UNIT,
            0 <= g,
    ;
    let e = ema(p, UNIT as int, alpha);
    assert(e == (UNIT * UNIT - x + UNIT / 2) / (UNIT as int));
    assert(2 * (UNIT - e) <= g);
}

/// Under a fully applied handbrake the effective braking of an electric car
/// approaches full braking whatever the pedals do: the gap to 1 at least
/// halves in each tick.
pub proof fn lemma_car_handbrake_floor(car: Car, n: nat)
    requires
        car.wf(),
        car.hand_brake == HandBrake::Full,
        car.profile.braking_alpha >= UNIT / 2,
    ensures
        car.ticks(n).wf(),
        car.ticks(n).effective_braking <= UNIT,
        (UNIT - car.ticks(n).effective_braking) * pow2(n) <= UNIT - car.effective_braking,
    decreases n,
{
    if n == 0 {
        lemma2_to64();
    } else {
        lemma_car_tick(car);
        let c1 = car.after_rpm();
        lemma_full_braking_halves_gap(
            c1.braking_window,
            c1.brake_position as int,
            c1.profile.braking_alpha as int,
        );
        lemma_car_handbrake_floor(car.ticked(), (n - 1) as nat);
        lemma_pow2_unfold(n);
        let g = UNIT - car.ticks(n).effective_braking;
        let g1 = UNIT - car.ticked().effective_braking;
        let p = pow2((n - 1) as nat);
        assert(g * (2 * p) <= UNIT - car.effective_braking) by (nonlinear_arith)
            requires
                g * p <= g1,
                2 * g1 <= UNIT - car.effective_braking,
        ;
    }
}

/// Under a fully applied handbrake the effective braking of a combustion car
/// approaches full braking whatever the pedals do: the gap to 1 at least
/// halves in each tick.
pub proof fn lemma_combustion_handbrake_floor(car: CombustionCar, n: nat)
    requires
        car.wf(),
        car.hand_brake == HandBrake::Full,
        car.profile.braking_alpha >= UNIT / 2,
    ensures
        car.ticks(n).wf(),
        car.ticks(n).effective_braking <= UNIT,
        (UNIT - car.ticks(n).effective_braking) * pow2(n) <= UNIT - car.effective_braking,
    decreases n,
{
    if n == 0 {
        lemma2_to64();
    } else {
        lemma_combustion_tick(car);
        let c1 = car.after_rpm();
        lemma_full_braking_halves_gap(
            c1.braking_window,
            c1.brake_position as int,
            c1.profile.braking_alpha as int,
        );
        lemma_combustion_handbrake_floor(car.ticked(), (n - 1) as nat);
        lemma_pow2_unfold(n);
        let g = UNIT - car.ticks(n).effective_braking;
        let g1 = UNIT - car.ticked().effective_braking;
        let p = pow2((n - 1) as nat);
        assert(g * (2 * p) <= UNIT - car.effective_braking) by (nonlinear_arith)
            requires
                g * p <= g1,
                2 * g1 <= UNIT - car.effective_braking,
        ;
    }
}

/// Twenty ticks under a fully applied handbrake reach full braking exactly,
/// from any state of an electric car.
pub proof fn lemma_car_handbrake_reaches_full(car: Car)
    requires
        car.wf(),
        car.hand_brake == HandBrake::Full,
        car.profile.braking_alpha >= UNIT / 2,
    ensures
        car.ticks(20).effective_braking == UNIT,
{
    lemma_car_handbrake_floor(car, 20);
    lemma2_to64();
    let g = UNIT - car.ticks(20).effective_braking;
    assert(g == 0) by (nonlinear_arith)
        requires
            g >= 0,
            g * 0x100000 <= 1_000_000,
    ;
}

/// Twenty ticks under a fully applied handbrake reach full braking exactly,
/// from any state of a combustion car.
pub proof fn lemma_combustion_handbrake_reaches_full(car: CombustionCar)
    requires
        car.wf(),
        car.hand_brake == HandBrake::Full,
        car.profile.braking_alpha >= UNIT / 2,
    ensures
        car.ticks(20).effective_braking == UNIT,
{
    lemma_combustion_handbrake_floor(car, 20);
    lemma2_to64();
    let g = UNIT - car.ticks(20).effective_braking;
    assert(g == 0) by (nonlinear_arith)
        requires
            g >= 0,
            g * 0x100000 <= 1_000_000,
    ;
}

/// A running electric car with the accelerator released and below 3 km/h
/// stands still, exactly, after the next tick.
pub proof fn lemma_car_clean_stop(car: Car)
    requires
        car.wf(),
        car.ignition,
        car.accelerator_position == 0,
        car.speed < STOP_SPEED,
    ensures
        car.ticked().speed == 0,
{
}

/// A running combustion car with the clutch engaged, the accelerator released
/// and below 3 km/h stands still, exactly, after the next tick.
pub proof fn lemma_combustion_clean_stop(car: CombustionCar)
    requires
        car.wf(),
        car.ignition,
        car.clutch_position <= CLUTCH_BITE,
        car.accelerator_position == 0,
        car.speed < STOP_SPEED,
    ensures
        car.ticked().speed == 0,
{
}

/// With the ignition off an electric car coasts: each tick keeps the share
/// `0.97 − braking` of its speed (none once braking exceeds 0.97), so speed
/// never rises.
pub proof fn lemma_car_coasts(car: Car)
    requires
        car.wf(),
        !car.ignition,
    ensures
        car.ticked().speed == coasted(car.speed as int, car.ticked().effective_braking as int),
        car.ticked().speed <= car.speed,
{
    lemma_coasting_slows(car.speed as int, car.ticked().effective_braking as int);
}

/// With the ignition off or the clutch open a combustion car coasts: each
/// tick keeps the share `0.97 − braking` of its speed (none once braking
/// exceeds 0.97), so speed never rises.
pub proof fn lemma_combustion_coasts(car: CombustionCar)
    requires
        car.wf(),
        !car.ignition || car.clutch_position > CLUTCH_BITE,
    ensures
        car.ticked().speed == coasted(car.speed as int, car.ticked().effective_braking as int),
        car.ticked().speed <= car.speed,
{
    lemma_coasting_slows(car.speed as int, car.ticked().effective_braking as int);
}

proof fn lemma_coasting_slows(speed: int, braking: int)
    requires
        0 <= speed,
        0 <= braking,
    ensures
        0 <= coasted(speed, braking) <= speed,
        coasted(speed, braking) * UNIT <= speed * COAST_KEEP,
{
    let keep = if braking < 970_000 { 970_000 - braking } else { 0 };
    assert(0 <= speed * keep / 1_000_000 <= speed) by (nonlinear_arith)
        requires
            0 <= speed,
            0 <= keep <= 1_000_000,
    ;
    assert(speed * keep / 1_000_000 * 1_000_000 <= speed * 970_000) by (nonlinear_arith)
        requires
            0 <= speed,
            0 <= keep <= 970_000,
    ;
}

/// Combines one tick of coasting with the ticks after it: if the first tick
/// keeps at most 0.97 of the speed and the rest keep at most 0.97 each, so
/// does the whole run.
proof fn lemma_decay_step(s0: int, s1: int, sn: int, n: nat)
    requires
        n > 0,
        s1 * UNIT <= s0 * COAST_KEEP,
        sn * pow(UNIT as int, (n - 1) as nat) <= s1 * pow(COAST_KEEP as int, (n - 1) as nat),
    ensures
        sn * pow(UNIT as int, n) <= s0 * pow(COAST_KEEP as int, n),
{
    reveal(pow);
    lemma_pow_positive(COAST_KEEP as int, (n - 1) as nat);
    let pu = pow(UNIT as int, (n - 1) as nat);
    let pk = pow(COAST_KEEP as int, (n - 1) as nat);
    assert(sn * (1_000_000 * pu) <= s0 * (970_000 * pk)) by (nonlinear_arith)
        requires
            s1 * 1_000_000 <= s0 * 970_000,
            sn * pu <= s1 * pk,
            pk > 0,
    ;
}

/// With the ignition off an electric car coasts down geometrically: after
/// `n` ticks its speed is at most `0.97^n` of where it began, and never
/// below zero, so it falls under any threshold.
pub proof fn lemma_car_coasts_down(car: Car, n: nat)
    requires
        car.wf(),
        !car.ignition,
    ensures
        car.ticks(n).speed * pow(UNIT as int, n) <= car.speed * pow(COAST_KEEP as int, n),
    decreases n,
{
    reveal(pow);
    if n > 0 {
        lemma_car_tick(car);
        lemma_car_coasts(car);
        lemma_coasting_slows(car.speed as int, car.ticked().effective_braking as int);
        lemma_car_coasts_down(car.ticked(), (n - 1) as nat);
        lemma_decay_step(car.speed as int, car.ticked().speed as int, car.ticks(n).speed as int, n);
    }
}

/// With the ignition off or the clutch open a combustion car coasts down
/// geometrically: after `n` ticks its speed is at most `0.97^n` of where it
/// began, and never below zero, so it falls under any threshold.
pub proof fn lemma_combustion_coasts_down(car: CombustionCar, n: nat)
    requires
        car.wf(),
        !car.ignition || car.clutch_position > CLUTCH_BITE,
    ensures
        car.ticks(n).speed * pow(UNIT as int, n) <= car.speed * pow(COAST_KEEP as int, n),
    decreases n,
{
    reveal(pow);
    if n > 0 {
        lemma_combustion_tick(car);
        lemma_combustion_coasts(car);
        lemma_coasting_slows(car.speed as int, car.ticked().effective_braking as int);
        lemma_combustion_coasts_down(car.ticked(), (n - 1) as nat);
        lemma_decay_step(car.speed as int, car.ticked().speed as int, car.ticks(n).speed as int, n);
    }
}

} // verus!
