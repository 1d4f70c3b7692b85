//! The immutable stat block shared by all placed units of a kind.

use vstd::prelude::*;

use crate::enums::MachineSkill;
use crate::enums::MachineType;

verus! {

/// A unit template: name, skill, targeting class, armored and weak side
/// masks, and the numeric stats. Templates are immutable; every placed unit
/// carries a copy of its template.
#[derive(Clone, Copy, Debug)]
pub struct Machine {
    pub name: &'static str,
    pub skill: MachineSkill,
    pub machine_type: MachineType,
    pub armored_sides: i32,
    pub weak_sides: i32,
    pub health: i32,
    pub attack: i32,
    pub range: i32,
    pub movement: i32,
    pub points: i32,
}

impl Machine {
    /// Bounds on the stats the engine computes with, so that combat power
    /// and movement-depth arithmetic stay within `i32`.
    pub open spec fn stats_wf(self) -> bool {
        &&& 0 <= self.attack <= 1000
        &&& 0 <= self.range <= 1000
        &&& 0 <= self.movement <= 1000
    }

    /// Whether units of this template fly. Flying units ignore chasm and
    /// marsh movement penalties and gain +1 combat power.
    pub open spec fn is_flying_spec(self) -> bool {
        self.machine_type is Swoop
    }

    /// Executable counterpart of [`Machine::is_flying_spec`].
    pub fn is_flying(&self) -> (b: bool)
        ensures
            b == self.is_flying_spec(),
    {
        self.machine_type == MachineType::Swoop
    }

    /// Whether units of this template use the pull targeting class. Pull
    /// units may keep moving out of marsh and gain +1 combat power on it.
    pub open spec fn is_pull_spec(self) -> bool {
        self.machine_type is Pull
    }

    /// Executable counterpart of [`Machine::is_pull_spec`].
    pub fn is_pull(&self) -> (b: bool)
        ensures
            b == self.is_pull_spec(),
    {
        self.machine_type == MachineType::Pull
    }
}

} // verus!
