//! The closed vocabularies of the game: terrain kinds, unit skills and
//! classes, sides of a unit, cardinal directions, players, per-turn states,
//! and the failure kinds an engine operation can report.

use vstd::prelude::*;

verus! {

/// Kind of terrain of a board cell. Each kind carries a baseline
/// combat-power contribution, given by [`Terrain::value`].
#[derive(Clone, Copy, PartialEq, Eq, Structural, Debug)]
pub enum Terrain {
    Chasm,
    Marsh,
    Grassland,
    Forest,
    Hill,
    Mountain,
}

impl Terrain {
    /// Baseline combat power of a unit standing on this terrain.
    pub open spec fn value_spec(self) -> int {
        match self {
            Terrain::Chasm => -2,
            Terrain::Marsh => -1,
            Terrain::Grassland => 0,
            Terrain::Forest => 1,
            Terrain::Hill => 2,
            Terrain::Mountain => 3,
        }
    }

    /// Executable counterpart of [`Terrain::value_spec`].
    pub fn value(self) -> (v: i32)
        ensures
            v == self.value_spec(),
    {
        match self {
            Terrain::Chasm => -2,
            Terrain::Marsh => -1,
            Terrain::Grassland => 0,
            Terrain::Forest => 1,
            Terrain::Hill => 2,
            Terrain::Mountain => 3,
        }
    }
}

/// Special ability of a unit template. Only Shield, Gallop, Stalk,
/// HighGround, Climb, Empower and Blind affect combat power in this engine;
/// the rest are recognized but inert here.
#[derive(Clone, Copy, PartialEq, Eq, Structural, Debug)]
pub enum MachineSkill {
    NoSkill,
    Shield,
    Spray,
    AlterTerrain,
    Gallop,
    Stalk,
    Burn,
    Retaliate,
    Whiplash,
    HighGround,
    Freeze,
    Climb,
    Empower,
    Growth,
    Sweep,
    Blind,
}

/// Targeting class of a unit; it decides the attack rule and the
/// post-hit effect. Swoop units are always treated as flying.
#[derive(Clone, Copy, PartialEq, Eq, Structural, Debug)]
pub enum MachineType {
    Gunner,
    Pull,
    Ram,
    Melee,
    Dash,
    Swoop,
}

/// One of the four facing-relative sides of a unit. A template's armored and
/// weak sides are bitmasks over these, built from [`MachineSide::mask`].
#[derive(Clone, Copy, PartialEq, Eq, Structural, Debug)]
pub enum MachineSide {
    Front,
    Left,
    Right,
    Rear,
}

impl MachineSide {
    /// Bit of this side in an armored or weak side mask.
    pub open spec fn mask_spec(self) -> i32 {
        match self {
            MachineSide::Front => 1,
            MachineSide::Left => 2,
            MachineSide::Right => 4,
            MachineSide::Rear => 8,
        }
    }

    /// Executable counterpart of [`MachineSide::mask_spec`].
    pub fn mask(self) -> (m: i32)
        ensures
            m == self.mask_spec(),
    {
        match self {
            MachineSide::Front => 1,
            MachineSide::Left => 2,
            MachineSide::Right => 4,
            MachineSide::Rear => 8,
        }
    }
}

/// Whether a side mask contains the given side.
pub open spec fn mask_contains(mask: i32, side: MachineSide) -> bool {
    mask & side.mask_spec() != 0
}

/// Cardinal direction, used both as a unit's facing and as the direction of
/// an attack relative to its source.
#[derive(Clone, Copy, PartialEq, Eq, Structural, Debug)]
pub enum MachineDirection {
    North,
    East,
    South,
    West,
}

impl MachineDirection {
    /// Row after one step in this direction. North decreases the row.
    pub open spec fn step_row(self, row: int) -> int {
        match self {
            MachineDirection::North => row - 1,
            MachineDirection::South => row + 1,
            MachineDirection::East => row,
            MachineDirection::West => row,
        }
    }

    /// Column after one step in this direction. West decreases the column.
    pub open spec fn step_column(self, column: int) -> int {
        match self {
            MachineDirection::North => column,
            MachineDirection::South => column,
            MachineDirection::East => column + 1,
            MachineDirection::West => column - 1,
        }
    }

    /// Direction opposite to this one.
    pub open spec fn reverse_spec(self) -> MachineDirection {
        match self {
            MachineDirection::North => MachineDirection::South,
            MachineDirection::South => MachineDirection::North,
            MachineDirection::East => MachineDirection::West,
            MachineDirection::West => MachineDirection::East,
        }
    }

    /// Executable counterpart of [`MachineDirection::reverse_spec`].
    pub fn reverse(self) -> (d: MachineDirection)
        ensures
            d == self.reverse_spec(),
    {
        match self {
            MachineDirection::North => MachineDirection::South,
            MachineDirection::South => MachineDirection::North,
            MachineDirection::East => MachineDirection::West,
            MachineDirection::West => MachineDirection::East,
        }
    }
}

/// Which player a unit belongs to, and whose turn it is.
#[derive(Clone, Copy, PartialEq, Eq, Structural, Debug)]
pub enum Player {
    Player,
    Opponent,
}

impl Player {
    /// The other player.
    pub open spec fn opposite_spec(self) -> Player {
        match self {
            Player::Player => Player::Opponent,
            Player::Opponent => Player::Player,
        }
    }

    /// Executable counterpart of [`Player::opposite_spec`].
    pub fn opposite(self) -> (p: Player)
        ensures
            p == self.opposite_spec(),
    {
        match self {
            Player::Player => Player::Opponent,
            Player::Opponent => Player::Player,
        }
    }
}

/// Per-turn progress of a unit. The engine only records transitions
/// triggered by moves and attacks; gating of legal actions per state is the
/// driver's concern.
#[derive(Clone, Copy, PartialEq, Eq, Structural, Debug)]
pub enum MachineState {
    Ready,
    Moved,
    Sprinted,
    Attacked,
    MovedAndAttacked,
    Overcharged,
}

/// Failure kind of an engine operation. No operation mutates the game when
/// it reports one of these.
#[derive(Clone, Copy, PartialEq, Eq, Structural, Debug)]
pub enum EngineError {
    /// A cell where a unit was expected holds none.
    InvalidReference,
    /// A referenced or computed cell falls outside the 0..8 grid bounds.
    OutOfRange,
    /// Dash attack resolution is an intentionally unresolved rule path.
    DashUnresolved,
    /// The outcome when attacker power does not exceed defender power is an
    /// intentionally unresolved rule path.
    DefenseBreakUnresolved,
}

} // verus!
