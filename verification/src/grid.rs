//! Coordinates on the 8x8 board.
//!
//! Cells are addressed by a row and a column, both in `0..8`. The two grids of
//! a [`crate::game::Game`] are stored row-major as vectors of 64 entries, and
//! `cell` gives the index of a coordinate pair in that flat layout.

use vstd::prelude::*;

use crate::enums::MachineDirection;

verus! {

/// Whether a coordinate pair lies on the board.
pub open spec fn in_bounds(row: int, column: int) -> bool {
    0 <= row < 8 && 0 <= column < 8
}

/// Row-major index of a cell in a flat grid of 64 entries.
pub open spec fn cell(row: int, column: int) -> int {
    row * 8 + column
}

/// Executable counterpart of [`cell`].
pub fn cell_index(row: usize, column: usize) -> (i: usize)
    requires
        row < 8,
        column < 8,
    ensures
        i == cell(row as int, column as int),
        i < 64,
{
    row * 8 + column
}

/// One step from an in-bounds cell in the given direction, or `None` when
/// the step leaves the board.
pub fn step_cell(direction: MachineDirection, row: usize, column: usize) -> (r: Option<
    (usize, usize),
>)
    requires
        row < 8,
        column < 8,
    ensures
        ({
            let nr = direction.step_row(row as int);
            let nc = direction.step_column(column as int);
            match r {
                Some(p) => in_bounds(nr, nc) && p.0 == nr && p.1 == nc,
                None => !in_bounds(nr, nc),
            }
        }),
{
    match direction {
        MachineDirection::North => {
            if row == 0 {
                None
            } else {
                Some((row - 1, column))
            }
        },
        MachineDirection::South => {
            if row == 7 {
                None
            } else {
                Some((row + 1, column))
            }
        },
        MachineDirection::East => {
            if column == 7 {
                None
            } else {
                Some((row, column + 1))
            }
        },
        MachineDirection::West => {
            if column == 0 {
                None
            } else {
                Some((row, column - 1))
            }
        },
    }
}

} // verus!
