//! The two-sample exponential moving average applied to speed and braking.
use vstd::prelude::*;

use crate::units::UNIT;

verus! {

/// One step of the exponential moving average, `alpha · sample + (1 − alpha) · previous`,
/// with `alpha` a fraction of `UNIT`, rounded to the nearest integer (halves up).
pub open spec fn ema(previous: int, sample: int, alpha: int) -> int {
    (alpha * sample + (UNIT - alpha) * previous + UNIT / 2) / (UNIT as int)
}

pub open spec fn min_of(a: int, b: int) -> int {
    if a <= b { a } else { b }
}

pub open spec fn max_of(a: int, b: int) -> int {
    if a <= b { b } else { a }
}

/// The average lies between its two inputs, and equals them when they agree.
pub proof fn lemma_ema_between(previous: int, sample: int, alpha: int)
    requires
        0 <= alpha <= UNIT,
    ensures
        min_of(previous, sample) <= ema(previous, sample, alpha) <= max_of(previous, sample),
{
    let lo = min_of(previous, sample);
    let hi = max_of(previous, sample);
    let u = UNIT as int;
    let x = alpha * sample + (u - alpha) * previous;
    assert(u * lo <= x <= u * hi) by (nonlinear_arith)
        requires
            x == alpha * sample + (u - alpha) * previous,
            0 <= alpha <= u,
            lo <= previous <= hi,
            lo <= sample <= hi,
    ;
    let r = (x + u / 2) / u;
    assert(u == 1_000_000);
    assert(lo <= r <= hi) by (nonlinear_arith)
        requires
            u == 1_000_000,
            r == (x + u / 2) / u,
            u * lo <= x <= u * hi,
    ;
}

/// Smooths a raw `sample` against the `previous` smoothed value; the empty
/// history is the value 0.
pub fn exponential_moving_average(previous: u64, sample: u64, alpha: u64) -> (r: u64)
    requires
        alpha <= UNIT,
    ensures
        r == ema(previous as int, sample as int, alpha as int),
        min_of(previous as int, sample as int) <= r <= max_of(previous as int, sample as int),
{
    proof {
        lemma_ema_between(previous as int, sample as int, alpha as int);
        assert(alpha * sample <= UNIT * 0xffff_ffff_ffff_ffffu64) by (nonlinear_arith)
            requires
                alpha <= UNIT,
        ;
        assert((UNIT - alpha) * previous <= UNIT * 0xffff_ffff_ffff_ffffu64) by (nonlinear_arith)
            requires
                alpha <= UNIT,
        ;
    }
    let x: u128 = alpha as u128 * sample as u128 + (UNIT - alpha) as u128 * previous as u128 + (
    UNIT / 2) as u128;
    (x / UNIT as u128) as u64
}

/// A smoothing window of two slots: the last smoothed value and the newest
/// raw sample. A fresh window holds no samples and smooths to 0.
#[derive(Clone, Copy, Debug, PartialEq, Eq, Structural)]
pub struct SmoothingWindow {
    pub previous: u64,
    pub latest: u64,
}

impl SmoothingWindow {
    pub open spec fn empty() -> SmoothingWindow {
        SmoothingWindow { previous: 0, latest: 0 }
    }

    /// What `smooth` leaves behind: the smoothed value seeds the next step.
    pub open spec fn smoothed(self, alpha: int) -> SmoothingWindow {
        SmoothingWindow { previous: ema(self.previous as int, self.latest as int, alpha) as u64, latest: self.latest }
    }

    pub fn new() -> (w: SmoothingWindow)
        ensures
            w == SmoothingWindow::empty(),
    {
        SmoothingWindow { previous: 0, latest: 0 }
    }

    /// Puts a raw sample in the newest slot.
    pub fn push(&mut self, sample: u64)
        ensures
            *final(self) == (SmoothingWindow { previous: old(self).previous, latest: sample }),
    {
        self.latest = sample;
    }

    /// Smooths the newest sample against the previous smoothed value, keeps the
    /// result as the new previous value and returns it.
    pub fn smooth(&mut self, alpha: u64) -> (r: u64)
        requires
            alpha <= UNIT,
        ensures
            r == ema(old(self).previous as int, old(self).latest as int, alpha as int),
            min_of(old(self).previous as int, old(self).latest as int) <= r,
            r <= max_of(old(self).previous as int, old(self).latest as int),
            *final(self) == old(self).smoothed(alpha as int),
    {
        let r = exponential_moving_average(self.previous, self.latest, alpha);
        self.previous = r;
        r
    }

    /// Drops the history: the window reads 0 again.
    pub fn reset(&mut self)
        ensures
            *final(self) == SmoothingWindow::empty(),
    {
        self.previous = 0;
        self.latest = 0;
    }
}

} // verus!
