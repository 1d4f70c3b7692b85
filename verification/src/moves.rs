//! The movement reachability engine.
//!
//! Reachability is a breadth-first expansion from the unit's cell over
//! orthogonal neighbors, each cell visited at most once. Expansion depth is
//! capped at `movement + 1`; a cell reached beyond `movement` steps is
//! flagged as requiring a sprint. A cell out of bounds, already visited,
//! occupied, or chasm under a non-flying unit blocks and is excluded. A
//! marsh cell reached after the first step by a unit that neither flies nor
//! pulls is itself a destination but blocks expansion past itself.

use vstd::prelude::*;

use crate::enums::Terrain;
use crate::game::Game;
use crate::game_machine::GameMachine;
use crate::grid::cell;
use crate::grid::cell_index;
use crate::grid::in_bounds;

verus! {

/// A legal destination of a unit: where it starts, where it lands, whether
/// getting there takes a sprint step, and the expansion depth at which the
/// destination was found.
#[derive(Clone, Copy, PartialEq, Eq, Structural, Debug)]
pub struct Move {
    pub source_row: usize,
    pub source_column: usize,
    pub destination_row: usize,
    pub destination_column: usize,
    pub requires_sprint: bool,
    pub found_at_depth: i32,
}

/// Whether a cell can never be entered: out of bounds, occupied by any
/// unit, or chasm terrain under a unit that does not fly.
pub open spec fn spot_blocked(game: Game, machine: GameMachine, row: int, column: int) -> bool {
    ||| !in_bounds(row, column)
    ||| game.machines@[cell(row, column)] is Some
    ||| !machine.machine.is_flying_spec() && game.board@[cell(row, column)] is Chasm
}

/// Whether a cell is blocked or was already visited by this expansion.
pub open spec fn spot_blocked_or_redundant(
    game: Game,
    machine: GameMachine,
    visited: Seq<bool>,
    row: int,
    column: int,
) -> bool {
    ||| spot_blocked(game, machine, row, column)
    ||| visited[cell(row, column)]
}

/// The move that records reaching `(row, column)` at the given depth.
pub open spec fn new_move(machine: GameMachine, depth: int, row: int, column: int) -> Move {
    Move {
        source_row: machine.row,
        source_column: machine.column,
        destination_row: row as usize,
        destination_column: column as usize,
        requires_sprint: depth > machine.machine.movement,
        found_at_depth: depth as i32,
    }
}

/// One candidate neighbor of an expansion: when the cell is neither blocked
/// nor visited, append its move and mark it visited; otherwise leave the
/// accumulator unchanged.
pub open spec fn try_step(
    game: Game,
    machine: GameMachine,
    depth: int,
    row: int,
    column: int,
    acc: (Seq<Move>, Seq<bool>),
) -> (Seq<Move>, Seq<bool>) {
    if !spot_blocked_or_redundant(game, machine, acc.1, row, column) {
        (acc.0.push(new_move(machine, depth, row, column)), acc.1.update(cell(row, column), true))
    } else {
        acc
    }
}

/// One expansion step from `(row, column)`, producing the moves found at
/// `depth` among the four orthogonal neighbors, in the order north, south,
/// west, east. Nothing is produced past the sprint cap, or out of a marsh
/// cell reached after the first step by a unit that neither flies nor pulls.
pub open spec fn expand_moves_spec(
    game: Game,
    machine: GameMachine,
    depth: int,
    row: int,
    column: int,
    visited: Seq<bool>,
) -> (Seq<Move>, Seq<bool>) {
    if depth > machine.machine.movement + 1 {
        (Seq::<Move>::empty(), visited)
    } else if depth > 1 && !machine.machine.is_flying_spec() && !machine.machine.is_pull_spec()
        && game.board@[cell(row, column)] is Marsh {
        (Seq::<Move>::empty(), visited)
    } else {
        let a1 = try_step(game, machine, depth, row - 1, column, (Seq::<Move>::empty(), visited));
        let a2 = try_step(game, machine, depth, row + 1, column, a1);
        let a3 = try_step(game, machine, depth, row, column - 1, a2);
        let a4 = try_step(game, machine, depth, row, column + 1, a3);
        a4
    }
}

/// The breadth-first worklist: expand the move at position `i`, append what
/// it finds, and continue with the next position until the worklist is
/// exhausted. The fuel only bounds the recursion; 64 steps always suffice
/// because every expansion marks each appended cell visited.
pub open spec fn bfs_loop(
    game: Game,
    machine: GameMachine,
    moves: Seq<Move>,
    visited: Seq<bool>,
    i: nat,
    fuel: nat,
) -> Seq<Move>
    decreases fuel,
{
    if i >= moves.len() || fuel == 0 {
        moves
    } else {
        let mv = moves[i as int];
        let step = expand_moves_spec(
            game,
            machine,
            mv.found_at_depth + 1,
            mv.destination_row as int,
            mv.destination_column as int,
            visited,
        );
        bfs_loop(game, machine, moves + step.0, step.1, i + 1, (fuel - 1) as nat)
    }
}

/// The all-unvisited grid.
pub open spec fn initial_visited() -> Seq<bool> {
    Seq::new(64, |i: int| false)
}

/// Every reachable destination of the unit, in breadth-first order.
pub open spec fn calculate_moves_spec(game: Game, machine: GameMachine) -> Seq<Move> {
    let first = expand_moves_spec(
        game,
        machine,
        1,
        machine.row as int,
        machine.column as int,
        initial_visited(),
    );
    bfs_loop(game, machine, first.0, first.1, 0, 64)
}

/// How many cells of a visited grid are marked.
pub open spec fn count_marked(s: Seq<bool>) -> nat
    decreases s.len(),
{
    if s.len() == 0 {
        0
    } else {
        count_marked(s.drop_last()) + if s.last() {
            1nat
        } else {
            0nat
        }
    }
}

proof fn lemma_count_marked_le_len(s: Seq<bool>)
    ensures
        count_marked(s) <= s.len(),
    decreases s.len(),
{
    if s.len() > 0 {
        lemma_count_marked_le_len(s.drop_last());
    }
}

proof fn lemma_count_marked_all_false(s: Seq<bool>)
    requires
        forall|k: int| 0 <= k < s.len() ==> !s[k],
    ensures
        count_marked(s) == 0,
    decreases s.len(),
{
    if s.len() > 0 {
        lemma_count_marked_all_false(s.drop_last());
    }
}

proof fn lemma_count_marked_update(s: Seq<bool>, j: int)
    requires
        0 <= j < s.len(),
        !s[j],
    ensures
        count_marked(s.update(j, true)) == count_marked(s) + 1,
    decreases s.len(),
{
    if j == s.len() - 1 {
        assert(s.update(j, true).drop_last() =~= s.drop_last());
        assert(s.update(j, true).last());
    } else {
        assert(s.update(j, true).drop_last() =~= s.drop_last().update(j, true));
        lemma_count_marked_update(s.drop_last(), j);
        assert(s.update(j, true).last() == s.last());
    }
}

proof fn lemma_try_step_count(
    game: Game,
    machine: GameMachine,
    depth: int,
    row: int,
    column: int,
    acc: (Seq<Move>, Seq<bool>),
)
    requires
        acc.1.len() == 64,
    ensures
        ({
            let res = try_step(game, machine, depth, row, column, acc);
            res.1.len() == 64 && count_marked(res.1) == count_marked(acc.1) + res.0.len()
                - acc.0.len() && res.0.len() >= acc.0.len()
        }),
{
    if !spot_blocked_or_redundant(game, machine, acc.1, row, column) {
        lemma_count_marked_update(acc.1, cell(row, column));
    }
}

proof fn lemma_expand_count(
    game: Game,
    machine: GameMachine,
    depth: int,
    row: int,
    column: int,
    visited: Seq<bool>,
)
    requires
        visited.len() == 64,
    ensures
        ({
            let res = expand_moves_spec(game, machine, depth, row, column, visited);
            res.1.len() == 64 && count_marked(res.1) == count_marked(visited) + res.0.len()
        }),
{
    let a0 = (Seq::<Move>::empty(), visited);
    let a1 = try_step(game, machine, depth, row - 1, column, a0);
    let a2 = try_step(game, machine, depth, row + 1, column, a1);
    let a3 = try_step(game, machine, depth, row, column - 1, a2);
    lemma_try_step_count(game, machine, depth, row - 1, column, a0);
    lemma_try_step_count(game, machine, depth, row + 1, column, a1);
    lemma_try_step_count(game, machine, depth, row, column - 1, a2);
    lemma_try_step_count(game, machine, depth, row, column + 1, a3);
}

proof fn lemma_expand_shape(
    game: Game,
    machine: GameMachine,
    depth: int,
    row: int,
    column: int,
    visited: Seq<bool>,
)
    requires
        1 <= depth <= 1100,
    ensures
        ({
            let res = expand_moves_spec(game, machine, depth, row, column, visited);
            forall|k: int|
                0 <= k < res.0.len() ==> (#[trigger] res.0[k]).found_at_depth == depth
                    && res.0[k].destination_row < 8 && res.0[k].destination_column < 8
        }),
{
}

/// What every reported move satisfies: the destination lies on the board,
/// no unit stands on it, a non-flying unit is never sent onto chasm, and
/// the source names the unit's own cell.
pub open spec fn move_allowed(game: Game, machine: GameMachine, mv: Move) -> bool {
    &&& in_bounds(mv.destination_row as int, mv.destination_column as int)
    &&& game.machines@[cell(mv.destination_row as int, mv.destination_column as int)] is None
    &&& !machine.machine.is_flying_spec() ==> !(game.board@[cell(
        mv.destination_row as int,
        mv.destination_column as int,
    )] is Chasm)
    &&& mv.source_row == machine.row
    &&& mv.source_column == machine.column
}

proof fn lemma_try_step_allowed(
    game: Game,
    machine: GameMachine,
    depth: int,
    row: int,
    column: int,
    acc: (Seq<Move>, Seq<bool>),
)
    requires
        forall|k: int| 0 <= k < acc.0.len() ==> move_allowed(game, machine, #[trigger] acc.0[k]),
    ensures
        ({
            let res = try_step(game, machine, depth, row, column, acc);
            forall|k: int| 0 <= k < res.0.len() ==> move_allowed(game, machine, #[trigger] res.0[k])
        }),
{
}

proof fn lemma_expand_allowed(
    game: Game,
    machine: GameMachine,
    depth: int,
    row: int,
    column: int,
    visited: Seq<bool>,
)
    ensures
        ({
            let res = expand_moves_spec(game, machine, depth, row, column, visited);
            forall|k: int| 0 <= k < res.0.len() ==> move_allowed(game, machine, #[trigger] res.0[k])
        }),
{
    let a0 = (Seq::<Move>::empty(), visited);
    let a1 = try_step(game, machine, depth, row - 1, column, a0);
    let a2 = try_step(game, machine, depth, row + 1, column, a1);
    let a3 = try_step(game, machine, depth, row, column - 1, a2);
    lemma_try_step_allowed(game, machine, depth, row - 1, column, a0);
    lemma_try_step_allowed(game, machine, depth, row + 1, column, a1);
    lemma_try_step_allowed(game, machine, depth, row, column - 1, a2);
    lemma_try_step_allowed(game, machine, depth, row, column + 1, a3);
}

proof fn lemma_bfs_allowed(
    game: Game,
    machine: GameMachine,
    moves: Seq<Move>,
    visited: Seq<bool>,
    i: nat,
    fuel: nat,
)
    requires
        forall|k: int| 0 <= k < moves.len() ==> move_allowed(game, machine, #[trigger] moves[k]),
    ensures
        ({
            let res = bfs_loop(game, machine, moves, visited, i, fuel);
            forall|k: int| 0 <= k < res.len() ==> move_allowed(game, machine, #[trigger] res[k])
        }),
    decreases fuel,
{
    if i >= moves.len() || fuel == 0 {
    } else {
        let mv = moves[i as int];
        let step = expand_moves_spec(
            game,
            machine,
            mv.found_at_depth + 1,
            mv.destination_row as int,
            mv.destination_column as int,
            visited,
        );
        lemma_expand_allowed(
            game,
            machine,
            mv.found_at_depth + 1,
            mv.destination_row as int,
            mv.destination_column as int,
            visited,
        );
        assert forall|k: int| 0 <= k < (moves + step.0).len() implies move_allowed(
            game,
            machine,
            #[trigger] (moves + step.0)[k],
        ) by {
            if k < moves.len() {
                assert((moves + step.0)[k] == moves[k]);
            } else {
                assert((moves + step.0)[k] == step.0[k - moves.len()]);
            }
        };
        lemma_bfs_allowed(game, machine, moves + step.0, step.1, i + 1, (fuel - 1) as nat);
        assert(bfs_loop(game, machine, moves, visited, i, fuel) == bfs_loop(
            game,
            machine,
            moves + step.0,
            step.1,
            i + 1,
            (fuel - 1) as nat,
        ));
    }
}

/// The reachable set never contains a cell outside the 0..8 bounds nor a
/// cell occupied by any unit, a non-flying unit's reachable set never
/// contains a chasm cell, and every move starts at the unit's own cell.
pub proof fn lemma_moves_allowed(game: Game, machine: GameMachine)
    ensures
        forall|k: int|
            0 <= k < calculate_moves_spec(game, machine).len() ==> move_allowed(
                game,
                machine,
                #[trigger] calculate_moves_spec(game, machine)[k],
            ),
{
    let first = expand_moves_spec(
        game,
        machine,
        1,
        machine.row as int,
        machine.column as int,
        initial_visited(),
    );
    lemma_expand_allowed(
        game,
        machine,
        1,
        machine.row as int,
        machine.column as int,
        initial_visited(),
    );
    lemma_bfs_allowed(game, machine, first.0, first.1, 0, 64);
}

/// Whether no two moves of the sequence name the same destination cell.
pub open spec fn moves_distinct(moves: Seq<Move>) -> bool {
    forall|j: int, k: int|
        0 <= j < k < moves.len() ==> !((#[trigger] moves[j]).destination_row == (
        #[trigger] moves[k]).destination_row && moves[j].destination_column
            == moves[k].destination_column)
}

/// Whether every move of the sequence has an in-bounds destination whose
/// cell is marked in the visited grid.
spec fn moves_marked(moves: Seq<Move>, visited: Seq<bool>) -> bool {
    forall|k: int|
        0 <= k < moves.len() ==> in_bounds(
            (#[trigger] moves[k]).destination_row as int,
            moves[k].destination_column as int,
        ) && visited[cell(moves[k].destination_row as int, moves[k].destination_column as int)]
}

proof fn lemma_try_step_distinct(
    game: Game,
    machine: GameMachine,
    depth: int,
    row: int,
    column: int,
    ms: Seq<Move>,
    acc: (Seq<Move>, Seq<bool>),
)
    requires
        acc.1.len() == 64,
        moves_distinct(ms + acc.0),
        moves_marked(ms + acc.0, acc.1),
    ensures
        ({
            let res = try_step(game, machine, depth, row, column, acc);
            res.1.len() == 64 && moves_distinct(ms + res.0) && moves_marked(ms + res.0, res.1)
        }),
{
    if !spot_blocked_or_redundant(game, machine, acc.1, row, column) {
        let nm = new_move(machine, depth, row, column);
        let res = try_step(game, machine, depth, row, column, acc);
        let combined = (ms + acc.0).push(nm);
        assert(in_bounds(row, column));
        assert(ms + res.0 =~= combined);
        assert forall|j: int, k: int| 0 <= j < k < combined.len() implies !((
        #[trigger] combined[j]).destination_row == (#[trigger] combined[k]).destination_row
            && combined[j].destination_column == combined[k].destination_column) by {
            assert(combined[j] == (ms + acc.0)[j]);
            if k == combined.len() - 1 {
                // Every earlier destination is marked, while the new cell
                // is not.
                assert(combined[k] == nm);
                assert(acc.1[cell(
                    (ms + acc.0)[j].destination_row as int,
                    (ms + acc.0)[j].destination_column as int,
                )]);
            } else {
                assert(combined[k] == (ms + acc.0)[k]);
            }
        };
        assert(moves_distinct(ms + res.0));
        assert forall|k: int| 0 <= k < combined.len() implies res.1[cell(
            (#[trigger] combined[k]).destination_row as int,
            combined[k].destination_column as int,
        )] by {
            if k < (ms + acc.0).len() {
                assert(combined[k] == (ms + acc.0)[k]);
                assert(acc.1[cell(
                    (ms + acc.0)[k].destination_row as int,
                    (ms + acc.0)[k].destination_column as int,
                )]);
            } else {
                assert(combined[k] == nm);
            }
        };
        assert(moves_marked(ms + res.0, res.1));
    }
}

proof fn lemma_expand_distinct(
    game: Game,
    machine: GameMachine,
    depth: int,
    row: int,
    column: int,
    ms: Seq<Move>,
    visited: Seq<bool>,
)
    requires
        visited.len() == 64,
        moves_distinct(ms),
        moves_marked(ms, visited),
    ensures
        ({
            let res = expand_moves_spec(game, machine, depth, row, column, visited);
            moves_distinct(ms + res.0) && moves_marked(ms + res.0, res.1)
        }),
{
    let a0 = (Seq::<Move>::empty(), visited);
    assert(ms + a0.0 =~= ms);
    let a1 = try_step(game, machine, depth, row - 1, column, a0);
    let a2 = try_step(game, machine, depth, row + 1, column, a1);
    let a3 = try_step(game, machine, depth, row, column - 1, a2);
    lemma_try_step_distinct(game, machine, depth, row - 1, column, ms, a0);
    lemma_try_step_distinct(game, machine, depth, row + 1, column, ms, a1);
    lemma_try_step_distinct(game, machine, depth, row, column - 1, ms, a2);
    lemma_try_step_distinct(game, machine, depth, row, column + 1, ms, a3);
}

proof fn lemma_bfs_distinct(
    game: Game,
    machine: GameMachine,
    moves: Seq<Move>,
    visited: Seq<bool>,
    i: nat,
    fuel: nat,
)
    requires
        visited.len() == 64,
        moves_distinct(moves),
        moves_marked(moves, visited),
    ensures
        moves_distinct(bfs_loop(game, machine, moves, visited, i, fuel)),
    decreases fuel,
{
    if i >= moves.len() || fuel == 0 {
    } else {
        let mv = moves[i as int];
        let step = expand_moves_spec(
            game,
            machine,
            mv.found_at_depth + 1,
            mv.destination_row as int,
            mv.destination_column as int,
            visited,
        );
        lemma_expand_distinct(
            game,
            machine,
            mv.found_at_depth + 1,
            mv.destination_row as int,
            mv.destination_column as int,
            moves,
            visited,
        );
        lemma_expand_count(
            game,
            machine,
            mv.found_at_depth + 1,
            mv.destination_row as int,
            mv.destination_column as int,
            visited,
        );
        lemma_bfs_distinct(game, machine, moves + step.0, step.1, i + 1, (fuel - 1) as nat);
        assert(bfs_loop(game, machine, moves, visited, i, fuel) == bfs_loop(
            game,
            machine,
            moves + step.0,
            step.1,
            i + 1,
            (fuel - 1) as nat,
        ));
    }
}

/// The reachable set is a set: no destination cell is ever reported twice,
/// whatever order the expansion visited the cells in.
pub proof fn lemma_moves_distinct(game: Game, machine: GameMachine)
    ensures
        moves_distinct(calculate_moves_spec(game, machine)),
{
    let first = expand_moves_spec(
        game,
        machine,
        1,
        machine.row as int,
        machine.column as int,
        initial_visited(),
    );
    assert(moves_distinct(Seq::<Move>::empty()));
    assert(moves_marked(Seq::<Move>::empty(), initial_visited()));
    lemma_expand_distinct(
        game,
        machine,
        1,
        machine.row as int,
        machine.column as int,
        Seq::<Move>::empty(),
        initial_visited(),
    );
    lemma_expand_count(
        game,
        machine,
        1,
        machine.row as int,
        machine.column as int,
        initial_visited(),
    );
    assert(Seq::<Move>::empty() + first.0 =~= first.0);
    lemma_bfs_distinct(game, machine, first.0, first.1, 0, 64);
}

proof fn lemma_bfs_prefix(
    game: Game,
    machine: GameMachine,
    moves: Seq<Move>,
    visited: Seq<bool>,
    i: nat,
    fuel: nat,
)
    ensures
        ({
            let res = bfs_loop(game, machine, moves, visited, i, fuel);
            res.len() >= moves.len() && forall|k: int|
                0 <= k < moves.len() ==> res[k] == moves[k]
        }),
    decreases fuel,
{
    if i >= moves.len() || fuel == 0 {
    } else {
        let mv = moves[i as int];
        let step = expand_moves_spec(
            game,
            machine,
            mv.found_at_depth + 1,
            mv.destination_row as int,
            mv.destination_column as int,
            visited,
        );
        lemma_bfs_prefix(game, machine, moves + step.0, step.1, i + 1, (fuel - 1) as nat);
        let res = bfs_loop(game, machine, moves + step.0, step.1, i + 1, (fuel - 1) as nat);
        assert(bfs_loop(game, machine, moves, visited, i, fuel) == res);
        assert forall|k: int| 0 <= k < moves.len() implies res[k] == moves[k] by {
            assert((moves + step.0)[k] == moves[k]);
        };
    }
}

/// Whether `(r2, c2)` is orthogonally adjacent to `(r1, c1)`.
pub open spec fn orthogonally_adjacent(r1: int, c1: int, r2: int, c2: int) -> bool {
    ||| r2 == r1 - 1 && c2 == c1
    ||| r2 == r1 + 1 && c2 == c1
    ||| r2 == r1 && c2 == c1 - 1
    ||| r2 == r1 && c2 == c1 + 1
}

/// Completeness at the first step: a cell orthogonally adjacent to the
/// unit's own cell is always in the reachable set when nothing blocks it
/// (it is on the board, unoccupied, and not chasm under a non-flying
/// unit). In particular a flying unit always reaches an adjacent free
/// chasm cell, which a non-flying unit's set excludes.
pub proof fn lemma_free_neighbor_reachable(
    game: Game,
    machine: GameMachine,
    row: int,
    column: int,
)
    requires
        machine.wf(),
        orthogonally_adjacent(machine.row as int, machine.column as int, row, column),
        !spot_blocked(game, machine, row, column),
    ensures
        exists|k: int|
            0 <= k < calculate_moves_spec(game, machine).len() && (
            #[trigger] calculate_moves_spec(game, machine)[k]).destination_row == row && calculate_moves_spec(
                game,
                machine,
            )[k].destination_column == column,
{
    let r0 = machine.row as int;
    let c0 = machine.column as int;
    let v0 = initial_visited();
    let a0 = (Seq::<Move>::empty(), v0);
    let a1 = try_step(game, machine, 1, r0 - 1, c0, a0);
    let a2 = try_step(game, machine, 1, r0 + 1, c0, a1);
    let a3 = try_step(game, machine, 1, r0, c0 - 1, a2);
    let a4 = try_step(game, machine, 1, r0, c0 + 1, a3);
    let first = expand_moves_spec(game, machine, 1, r0, c0, v0);
    assert(first == a4);
    let pos: int = if row == r0 - 1 {
        0
    } else if row == r0 + 1 {
        a1.0.len() as int
    } else if column == c0 - 1 {
        a2.0.len() as int
    } else {
        a3.0.len() as int
    };
    assert(0 <= pos < first.0.len() && first.0[pos].destination_row == row
        && first.0[pos].destination_column == column);
    lemma_bfs_prefix(game, machine, first.0, first.1, 0, 64);
    assert(calculate_moves_spec(game, machine)[pos] == first.0[pos]);
}

/// A unit that neither flies nor pulls cannot keep moving out of a marsh
/// cell it reached after the first step: expansion from such a cell yields
/// no further moves. The marsh cell itself was already reported by the
/// expansion that reached it.
pub proof fn lemma_marsh_halts_expansion(
    game: Game,
    machine: GameMachine,
    depth: int,
    row: int,
    column: int,
    visited: Seq<bool>,
)
    requires
        depth > 1,
        !machine.machine.is_flying_spec(),
        !machine.machine.is_pull_spec(),
        game.board@[cell(row, column)] is Marsh,
    ensures
        expand_moves_spec(game, machine, depth, row, column, visited).0 == Seq::<Move>::empty(),
        expand_moves_spec(game, machine, depth, row, column, visited).1 == visited,
{
}

/// Computing the reachable set twice in the same unchanged game state gives
/// the same moves in the same order: the result is a function of the game
/// and the unit alone.
pub proof fn lemma_moves_deterministic(
    game: Game,
    machine: GameMachine,
    r1: Seq<Move>,
    r2: Seq<Move>,
)
    requires
        r1 == calculate_moves_spec(game, machine),
        r2 == calculate_moves_spec(game, machine),
    ensures
        r1 == r2,
{
}

/// Whether the spot at `(row, column)` blocks, or this expansion has
/// already visited it.
fn is_spot_blocked_or_redundant(
    row: usize,
    column: usize,
    game: &Game,
    machine: &GameMachine,
    visited: &Vec<bool>,
) -> (b: bool)
    requires
        game.wf(),
        visited@.len() == 64,
    ensures
        b == spot_blocked_or_redundant(*game, *machine, visited@, row as int, column as int),
{
    if row > 7 || column > 7 {
        return true;
    }
    let i = cell_index(row, column);
    if visited[i] {
        return true;
    }
    if game.machines[i].is_some() {
        return true;
    }
    if !machine.machine.is_flying() && game.board[i] == Terrain::Chasm {
        return true;
    }
    false
}

/// One expansion step: append the moves found at `distance_travelled` among
/// the orthogonal neighbors of `(row, column)` and mark them visited.
fn expand_moves(
    distance_travelled: i32,
    row: usize,
    column: usize,
    machine: &GameMachine,
    game: &Game,
    visited: &mut Vec<bool>,
    moves: &mut Vec<Move>,
)
    requires
        game.wf(),
        machine.wf(),
        old(visited)@.len() == 64,
        row < 8,
        column < 8,
        1 <= distance_travelled <= 1100,
    ensures
        ({
            let res = expand_moves_spec(
                *game,
                *machine,
                distance_travelled as int,
                row as int,
                column as int,
                old(visited)@,
            );
            final(visited)@ == res.1 && final(moves)@ == old(moves)@ + res.0
        }),
{
    let ghost m0 = moves@;
    let ghost v0 = visited@;
    let ghost d = distance_travelled as int;
    if distance_travelled > machine.machine.movement + 1 {
        proof {
            assert(moves@ =~= m0 + Seq::<Move>::empty());
        }
        return ;
    }
    let terrain = game.board[cell_index(row, column)];
    if distance_travelled > 1 && !machine.machine.is_flying() && !machine.machine.is_pull()
        && terrain == Terrain::Marsh {
        proof {
            assert(moves@ =~= m0 + Seq::<Move>::empty());
        }
        return ;
    }
    let requires_sprint = distance_travelled > machine.machine.movement;
    let ghost a1 = try_step(*game, *machine, d, row as int - 1, column as int, (
        Seq::<Move>::empty(),
        v0,
    ));
    if row > 0 {
        if !is_spot_blocked_or_redundant(row - 1, column, game, machine, visited) {
            moves.push(
                Move {
                    source_row: machine.row,
                    source_column: machine.column,
                    destination_row: row - 1,
                    destination_column: column,
                    requires_sprint,
                    found_at_depth: distance_travelled,
                },
            );
            visited.set(cell_index(row - 1, column), true);
        }
    }
    proof {
        assert(moves@ =~= m0 + a1.0);
        assert(visited@ =~= a1.1);
    }
    let ghost a2 = try_step(*game, *machine, d, row as int + 1, column as int, a1);
    if row < 7 {
        if !is_spot_blocked_or_redundant(row + 1, column, game, machine, visited) {
            moves.push(
                Move {
                    source_row: machine.row,
                    source_column: machine.column,
                    destination_row: row + 1,
                    destination_column: column,
                    requires_sprint,
                    found_at_depth: distance_travelled,
                },
            );
            visited.set(cell_index(row + 1, column), true);
        }
    }
    proof {
        assert(moves@ =~= m0 + a2.0);
        assert(visited@ =~= a2.1);
    }
    let ghost a3 = try_step(*game, *machine, d, row as int, column as int - 1, a2);
    if column > 0 {
        if !is_spot_blocked_or_redundant(row, column - 1, game, machine, visited) {
            moves.push(
                Move {
                    source_row: machine.row,
                    source_column: machine.column,
                    destination_row: row,
                    destination_column: column - 1,
                    requires_sprint,
                    found_at_depth: distance_travelled,
                },
            );
            visited.set(cell_index(row, column - 1), true);
        }
    }
    proof {
        assert(moves@ =~= m0 + a3.0);
        assert(visited@ =~= a3.1);
    }
    let ghost a4 = try_step(*game, *machine, d, row as int, column as int + 1, a3);
    if column < 7 {
        if !is_spot_blocked_or_redundant(row, column + 1, game, machine, visited) {
            moves.push(
                Move {
                    source_row: machine.row,
                    source_column: machine.column,
                    destination_row: row,
                    destination_column: column + 1,
                    requires_sprint,
                    found_at_depth: distance_travelled,
                },
            );
            visited.set(cell_index(row, column + 1), true);
        }
    }
    proof {
        assert(moves@ =~= m0 + a4.0);
        assert(visited@ =~= a4.1);
    }
}

/// Every reachable destination of the unit from its current cell, each cell
/// at most once, tagged with whether reaching it takes a sprint step.
pub fn calculate_moves(game: &Game, machine: &GameMachine) -> (r: Vec<Move>)
    requires
        game.wf(),
        machine.wf(),
    ensures
        r@ == calculate_moves_spec(*game, *machine),
        forall|k: int| 0 <= k < r@.len() ==> move_allowed(*game, *machine, #[trigger] r@[k]),
        moves_distinct(r@),
{
    proof {
        lemma_moves_allowed(*game, *machine);
        lemma_moves_distinct(*game, *machine);
    }
    let mut visited: Vec<bool> = Vec::new();
    let mut j: usize = 0;
    while j < 64
        invariant
            visited@.len() == j,
            j <= 64,
            forall|k: int| 0 <= k < j ==> !visited@[k],
        decreases 64 - j,
    {
        visited.push(false);
        j = j + 1;
    }
    proof {
        assert(visited@ =~= initial_visited());
        lemma_count_marked_all_false(visited@);
        lemma_expand_count(
            *game,
            *machine,
            1,
            machine.row as int,
            machine.column as int,
            visited@,
        );
        lemma_expand_shape(
            *game,
            *machine,
            1,
            machine.row as int,
            machine.column as int,
            visited@,
        );
    }
    let mut all_moves: Vec<Move> = Vec::new();
    expand_moves(1, machine.row, machine.column, machine, game, &mut visited, &mut all_moves);

    let mut expanded_index: usize = 0;
    while expanded_index < all_moves.len()
        invariant
            game.wf(),
            machine.wf(),
            visited@.len() == 64,
            expanded_index <= all_moves@.len(),
            count_marked(visited@) == all_moves@.len(),
            forall|k: int|
                0 <= k < all_moves@.len() ==> (1 <= (#[trigger] all_moves@[k]).found_at_depth <= k
                    + 1) && all_moves@[k].destination_row < 8 && all_moves@[k].destination_column
                    < 8,
            bfs_loop(
                *game,
                *machine,
                all_moves@,
                visited@,
                expanded_index as nat,
                (64 - expanded_index) as nat,
            ) == calculate_moves_spec(*game, *machine),
        decreases 64 - expanded_index,
    {
        proof {
            lemma_count_marked_le_len(visited@);
        }
        let current = all_moves[expanded_index];
        let ghost pre_moves = all_moves@;
        let ghost pre_visited = visited@;
        proof {
            lemma_expand_count(
                *game,
                *machine,
                current.found_at_depth + 1,
                current.destination_row as int,
                current.destination_column as int,
                visited@,
            );
            lemma_expand_shape(
                *game,
                *machine,
                current.found_at_depth + 1,
                current.destination_row as int,
                current.destination_column as int,
                visited@,
            );
        }
        expand_moves(
            current.found_at_depth + 1,
            current.destination_row,
            current.destination_column,
            machine,
            game,
            &mut visited,
            &mut all_moves,
        );
        expanded_index = expanded_index + 1;
    }
    all_moves
}

} // verus!
