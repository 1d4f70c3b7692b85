//! A placed unit: a template together with its mutable per-game state.

use vstd::prelude::*;

use crate::enums::MachineDirection;
use crate::enums::MachineState;
use crate::enums::Player;
use crate::machine::Machine;

verus! {

/// A unit standing on the board. Its `row` and `column` always agree with
/// the grid slot that owns it; [`crate::game::Game::wf`] states that
/// invariant for the whole board.
#[derive(Clone, Copy, Debug)]
pub struct GameMachine {
    pub machine: Machine,
    pub health: i32,
    pub direction: MachineDirection,
    pub row: usize,
    pub column: usize,
    pub machine_state: MachineState,
    pub side: Player,
}

impl GameMachine {
    /// The unit stands on the board and its template stats are in range.
    pub open spec fn wf(self) -> bool {
        &&& self.row < 8
        &&& self.column < 8
        &&& self.machine.stats_wf()
    }
}

} // verus!
