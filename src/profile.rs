//! The tunable part of a vehicle: how hard its filters smooth, and its gearbox.
use vstd::prelude::*;

use crate::controls::GearTable;
use crate::units::{BRAKING_ALPHA, SPEED_ALPHA, UNIT};

verus! {

/// A vehicle profile. Smoothing factors are fractions of `UNIT` in `(0, 1]`.
#[derive(Clone, Copy, Debug, PartialEq, Eq, Structural)]
pub struct Profile {
    pub speed_alpha: u64,
    pub braking_alpha: u64,
    pub gears: GearTable,
}

impl Profile {
    pub open spec fn wf(&self) -> bool {
        &&& 0 < self.speed_alpha <= UNIT
        &&& 0 < self.braking_alpha <= UNIT
    }

    /// Both filters at 0.5, torque gear table.
    pub fn standard() -> (p: Profile)
        ensures
            p.wf(),
            p == (Profile { speed_alpha: SPEED_ALPHA, braking_alpha: BRAKING_ALPHA, gears: GearTable::Torque }),
    {
        Profile { speed_alpha: SPEED_ALPHA, braking_alpha: BRAKING_ALPHA, gears: GearTable::Torque }
    }

    /// A profile with the given smoothing factors and gearbox, or `None`
    /// where a factor lies outside `(0, 1]`.
    pub fn new(speed_alpha: u64, braking_alpha: u64, gears: GearTable) -> (r: Option<Profile>)
        ensures
            r is Some <==> (0 < speed_alpha <= UNIT && 0 < braking_alpha <= UNIT),
            r matches Some(p) ==> p.wf() && p == (Profile { speed_alpha, braking_alpha, gears }),
    {
        if 0 < speed_alpha && speed_alpha <= UNIT && 0 < braking_alpha && braking_alpha <= UNIT {
            Some(Profile { speed_alpha, braking_alpha, gears })
        } else {
            None
        }
    }
}

} // verus!
