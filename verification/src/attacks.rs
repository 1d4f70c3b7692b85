//! The attack-targeting engine and the combat-power calculation.
//!
//! Targeting is evaluated independently per cardinal direction. Melee, Ram,
//! Swoop and Pull units line-trace outward and hit the first occupied cell if
//! it holds an enemy; a friendly unit in the line blocks the direction.
//! Gunners examine only the single cell at exactly their range. Dash units
//! need an empty landing cell at exactly their range and at least one enemy
//! along the traced path.

use vstd::prelude::*;

use crate::enums::mask_contains;
use crate::enums::MachineDirection;
use crate::enums::MachineSide;
use crate::enums::MachineSkill;
use crate::enums::MachineType;
use crate::enums::Player;
use crate::enums::Terrain;
use crate::game::Game;
use crate::game_machine::GameMachine;
use crate::grid::cell;
use crate::grid::cell_index;
use crate::grid::in_bounds;

verus! {

/// A legal attack: the direction it is launched in, the cell of the unit it
/// names (for Dash, the empty landing cell), and the attacker's cell.
#[derive(Clone, Copy, PartialEq, Eq, Structural, Debug)]
pub struct Attack {
    pub attack_direction_from_source: MachineDirection,
    pub machine_row: usize,
    pub machine_column: usize,
    pub source_row: usize,
    pub source_column: usize,
}

/// Row coordinate `n` steps away from `row` in the given direction.
pub open spec fn offset_row(direction: MachineDirection, row: int, n: int) -> int {
    match direction {
        MachineDirection::North => row - n,
        MachineDirection::South => row + n,
        MachineDirection::East => row,
        MachineDirection::West => row,
    }
}

/// Column coordinate `n` steps away from `column` in the given direction.
pub open spec fn offset_column(direction: MachineDirection, column: int, n: int) -> int {
    match direction {
        MachineDirection::North => column,
        MachineDirection::South => column,
        MachineDirection::East => column + n,
        MachineDirection::West => column - n,
    }
}

/// Cell of the first enemy of `side` hit by a line-trace of at most `steps`
/// cells from `(row, column)` in the given direction. The trace stops
/// without a target at the board edge and at the first occupied cell when
/// that cell holds a unit of `side` itself: friendly units block the line.
pub open spec fn trace_target(
    game: Game,
    side: Player,
    direction: MachineDirection,
    row: int,
    column: int,
    steps: nat,
) -> Option<(int, int)>
    decreases steps,
{
    if steps == 0 {
        None
    } else {
        let nr = direction.step_row(row);
        let nc = direction.step_column(column);
        if !in_bounds(nr, nc) {
            None
        } else {
            match game.machines@[cell(nr, nc)] {
                Some(m) => if m.side != side {
                    Some((nr, nc))
                } else {
                    None
                },
                None => trace_target(game, side, direction, nr, nc, (steps - 1) as nat),
            }
        }
    }
}

/// The attack a line-tracing unit gets in the given direction, if any.
pub open spec fn first_machine_in_attack_range_spec(
    game: Game,
    machine: GameMachine,
    direction: MachineDirection,
) -> Option<Attack> {
    match trace_target(
        game,
        machine.side,
        direction,
        machine.row as int,
        machine.column as int,
        machine.machine.range as nat,
    ) {
        Some(rc) => Some(
            Attack {
                attack_direction_from_source: direction,
                machine_row: rc.0 as usize,
                machine_column: rc.1 as usize,
                source_row: machine.row,
                source_column: machine.column,
            },
        ),
        None => None,
    }
}

/// The attack a Gunner gets in the given direction, if any: the single cell
/// at exactly its range must be in bounds and hold an enemy; intervening
/// cells are irrelevant.
pub open spec fn gunner_attack_spec(
    game: Game,
    machine: GameMachine,
    direction: MachineDirection,
) -> Option<Attack> {
    let tr = offset_row(direction, machine.row as int, machine.machine.range as int);
    let tc = offset_column(direction, machine.column as int, machine.machine.range as int);
    if !in_bounds(tr, tc) {
        None
    } else {
        match game.machines@[cell(tr, tc)] {
            Some(m) => if m.side != machine.side {
                Some(
                    Attack {
                        attack_direction_from_source: direction,
                        machine_row: tr as usize,
                        machine_column: tc as usize,
                        source_row: machine.row,
                        source_column: machine.column,
                    },
                )
            } else {
                None
            },
            None => None,
        }
    }
}

/// The attack a Dash unit gets in the given direction, if any: the cell at
/// exactly its range must be in bounds and empty (the landing cell), and the
/// traced path up to its range must contain an enemy.
pub open spec fn dash_attack_spec(
    game: Game,
    machine: GameMachine,
    direction: MachineDirection,
) -> Option<Attack> {
    let tr = offset_row(direction, machine.row as int, machine.machine.range as int);
    let tc = offset_column(direction, machine.column as int, machine.machine.range as int);
    if !in_bounds(tr, tc) {
        None
    } else if game.machines@[cell(tr, tc)] is Some {
        None
    } else if trace_target(
        game,
        machine.side,
        direction,
        machine.row as int,
        machine.column as int,
        machine.machine.range as nat,
    ) is Some {
        Some(
            Attack {
                attack_direction_from_source: direction,
                machine_row: tr as usize,
                machine_column: tc as usize,
                source_row: machine.row,
                source_column: machine.column,
            },
        )
    } else {
        None
    }
}

/// The attack the unit gets in the given direction, if any, by its
/// targeting class.
pub open spec fn attacks_in_direction_spec(
    game: Game,
    machine: GameMachine,
    direction: MachineDirection,
) -> Option<Attack> {
    match machine.machine.machine_type {
        MachineType::Melee | MachineType::Ram | MachineType::Swoop | MachineType::Pull => {
            first_machine_in_attack_range_spec(game, machine, direction)
        },
        MachineType::Gunner => gunner_attack_spec(game, machine, direction),
        MachineType::Dash => dash_attack_spec(game, machine, direction),
    }
}

/// The attacks of one direction as a sequence of zero or one elements.
pub open spec fn direction_attacks(o: Option<Attack>) -> Seq<Attack> {
    match o {
        Some(a) => seq![a],
        None => Seq::empty(),
    }
}

/// All attacks of the unit, per direction in the order North, East, South,
/// West.
pub open spec fn calculate_attacks_spec(game: Game, machine: GameMachine) -> Seq<Attack> {
    direction_attacks(attacks_in_direction_spec(game, machine, MachineDirection::North))
        + direction_attacks(attacks_in_direction_spec(game, machine, MachineDirection::East))
        + direction_attacks(attacks_in_direction_spec(game, machine, MachineDirection::South))
        + direction_attacks(attacks_in_direction_spec(game, machine, MachineDirection::West))
}

/// Line-trace from the unit's cell outward up to its range in the given
/// direction and report the first enemy hit, if any, as an attack.
fn first_machine_in_attack_range(
    direction: MachineDirection,
    game: &Game,
    machine: &GameMachine,
) -> (r: Option<Attack>)
    requires
        game.wf(),
        machine.wf(),
    ensures
        r == first_machine_in_attack_range_spec(*game, *machine, direction),
{
    let mut row = machine.row;
    let mut column = machine.column;
    let mut steps = machine.machine.range;
    loop
        invariant
            game.wf(),
            machine.wf(),
            row < 8,
            column < 8,
            0 <= steps,
            trace_target(*game, machine.side, direction, row as int, column as int, steps as nat)
                == trace_target(
                *game,
                machine.side,
                direction,
                machine.row as int,
                machine.column as int,
                machine.machine.range as nat,
            ),
        decreases steps,
    {
        if steps == 0 {
            return None;
        }
        match direction {
            MachineDirection::North => {
                if row == 0 {
                    return None;
                }
                row = row - 1;
            },
            MachineDirection::East => {
                if column == 7 {
                    return None;
                }
                column = column + 1;
            },
            MachineDirection::South => {
                if row == 7 {
                    return None;
                }
                row = row + 1;
            },
            MachineDirection::West => {
                if column == 0 {
                    return None;
                }
                column = column - 1;
            },
        }
        match self_machine_at(game, row, column) {
            Some(m) => {
                if m.side != machine.side {
                    return Some(
                        Attack {
                            attack_direction_from_source: direction,
                            machine_row: row,
                            machine_column: column,
                            source_row: machine.row,
                            source_column: machine.column,
                        },
                    );
                } else {
                    return None;
                }
            },
            None => {},
        }
        steps = steps - 1;
    }
}

/// Unit at the given coordinates, by value.
fn self_machine_at(game: &Game, row: usize, column: usize) -> (m: Option<GameMachine>)
    requires
        game.wf(),
        row < 8,
        column < 8,
    ensures
        m == game.machine_at(row as int, column as int),
{
    game.machines[cell_index(row, column)]
}

/// Cell at exactly the unit's range in the given direction, or `None` when
/// it falls off the board.
fn range_offset_cell(machine: &GameMachine, direction: MachineDirection) -> (r: Option<
    (usize, usize),
>)
    requires
        machine.wf(),
    ensures
        ({
            let tr = offset_row(direction, machine.row as int, machine.machine.range as int);
            let tc = offset_column(direction, machine.column as int, machine.machine.range as int);
            match r {
                Some(p) => in_bounds(tr, tc) && p.0 == tr && p.1 == tc,
                None => !in_bounds(tr, tc),
            }
        }),
{
    let range = machine.machine.range as usize;
    match direction {
        MachineDirection::North => {
            if range > machine.row {
                None
            } else {
                Some((machine.row - range, machine.column))
            }
        },
        MachineDirection::South => {
            let tr = machine.row + range;
            if tr > 7 {
                None
            } else {
                Some((tr, machine.column))
            }
        },
        MachineDirection::East => {
            let tc = machine.column + range;
            if tc > 7 {
                None
            } else {
                Some((machine.row, tc))
            }
        },
        MachineDirection::West => {
            if range > machine.column {
                None
            } else {
                Some((machine.row, machine.column - range))
            }
        },
    }
}

/// The attack the unit gets in one direction, if any, by its targeting
/// class.
fn attacks_in_direction(game: &Game, machine: &GameMachine, direction: MachineDirection) -> (r:
    Option<Attack>)
    requires
        game.wf(),
        machine.wf(),
    ensures
        r == attacks_in_direction_spec(*game, *machine, direction),
{
    match machine.machine.machine_type {
        MachineType::Melee | MachineType::Ram | MachineType::Swoop | MachineType::Pull => {
            first_machine_in_attack_range(direction, game, machine)
        },
        MachineType::Gunner => {
            match range_offset_cell(machine, direction) {
                Some(target) => {
                    match self_machine_at(game, target.0, target.1) {
                        Some(m) => {
                            if m.side != machine.side {
                                Some(
                                    Attack {
                                        attack_direction_from_source: direction,
                                        machine_row: target.0,
                                        machine_column: target.1,
                                        source_row: machine.row,
                                        source_column: machine.column,
                                    },
                                )
                            } else {
                                None
                            }
                        },
                        None => None,
                    }
                },
                None => None,
            }
        },
        MachineType::Dash => {
            match range_offset_cell(machine, direction) {
                Some(target) => {
                    if self_machine_at(game, target.0, target.1).is_some() {
                        None
                    } else {
                        match first_machine_in_attack_range(direction, game, machine) {
                            Some(_) => Some(
                                Attack {
                                    attack_direction_from_source: direction,
                                    machine_row: target.0,
                                    machine_column: target.1,
                                    source_row: machine.row,
                                    source_column: machine.column,
                                },
                            ),
                            None => None,
                        }
                    }
                },
                None => None,
            }
        },
    }
}

/// Every legal attack of the unit, evaluated independently per cardinal
/// direction in the order North, East, South, West.
pub fn calculate_attacks(game: &Game, machine: &GameMachine) -> (r: Vec<Attack>)
    requires
        game.wf(),
        machine.wf(),
    ensures
        r@ == calculate_attacks_spec(*game, *machine),
        !(machine.machine.machine_type is Dash) ==> forall|k: int|
            0 <= k < r@.len() ==> attack_hits_enemy(*game, *machine, #[trigger] r@[k]),
{
    proof {
        if !(machine.machine.machine_type is Dash) {
            lemma_attacks_hit_enemies(*game, *machine);
        }
    }
    let mut attacks: Vec<Attack> = Vec::new();
    if let Some(a) = attacks_in_direction(game, machine, MachineDirection::North) {
        attacks.push(a);
    }
    if let Some(a) = attacks_in_direction(game, machine, MachineDirection::East) {
        attacks.push(a);
    }
    if let Some(a) = attacks_in_direction(game, machine, MachineDirection::South) {
        attacks.push(a);
    }
    if let Some(a) = attacks_in_direction(game, machine, MachineDirection::West) {
        attacks.push(a);
    }
    proof {
        assert(attacks@ =~= calculate_attacks_spec(*game, *machine));
    }
    attacks
}

/// What every attack of a non-Dash unit satisfies: it names an in-bounds
/// cell held by an enemy of the unit, and its source is the unit's own cell.
pub open spec fn attack_hits_enemy(game: Game, machine: GameMachine, a: Attack) -> bool {
    &&& in_bounds(a.machine_row as int, a.machine_column as int)
    &&& (game.machines@[cell(a.machine_row as int, a.machine_column as int)] matches Some(t)
        && t.side != machine.side)
    &&& a.source_row == machine.row
    &&& a.source_column == machine.column
}

proof fn lemma_trace_target_enemy(
    game: Game,
    side: Player,
    direction: MachineDirection,
    row: int,
    column: int,
    steps: nat,
)
    ensures
        trace_target(game, side, direction, row, column, steps) matches Some(rc) ==> in_bounds(
            rc.0,
            rc.1,
        ) && (game.machines@[cell(rc.0, rc.1)] matches Some(t) && t.side != side),
    decreases steps,
{
    if steps > 0 {
        let nr = direction.step_row(row);
        let nc = direction.step_column(column);
        if in_bounds(nr, nc) && game.machines@[cell(nr, nc)] is None {
            lemma_trace_target_enemy(game, side, direction, nr, nc, (steps - 1) as nat);
        }
    }
}

proof fn lemma_direction_hits_enemy(game: Game, machine: GameMachine, direction: MachineDirection)
    requires
        !(machine.machine.machine_type is Dash),
    ensures
        attacks_in_direction_spec(game, machine, direction) matches Some(a) ==> attack_hits_enemy(
            game,
            machine,
            a,
        ),
{
    lemma_trace_target_enemy(
        game,
        machine.side,
        direction,
        machine.row as int,
        machine.column as int,
        machine.machine.range as nat,
    );
}

/// Every attack reported for a Melee, Ram, Swoop, Pull or Gunner unit names
/// an in-bounds cell held by an enemy unit; a cell holding a friendly unit
/// is never reported, and for line-tracing classes a friendly unit blocks
/// everything behind it.
pub proof fn lemma_attacks_hit_enemies(game: Game, machine: GameMachine)
    requires
        !(machine.machine.machine_type is Dash),
    ensures
        forall|k: int|
            0 <= k < calculate_attacks_spec(game, machine).len() ==> attack_hits_enemy(
                game,
                machine,
                #[trigger] calculate_attacks_spec(game, machine)[k],
            ),
{
    lemma_direction_hits_enemy(game, machine, MachineDirection::North);
    lemma_direction_hits_enemy(game, machine, MachineDirection::East);
    lemma_direction_hits_enemy(game, machine, MachineDirection::South);
    lemma_direction_hits_enemy(game, machine, MachineDirection::West);
    let n = direction_attacks(attacks_in_direction_spec(game, machine, MachineDirection::North));
    let e = direction_attacks(attacks_in_direction_spec(game, machine, MachineDirection::East));
    let s = direction_attacks(attacks_in_direction_spec(game, machine, MachineDirection::South));
    let w = direction_attacks(attacks_in_direction_spec(game, machine, MachineDirection::West));
    let all = calculate_attacks_spec(game, machine);
    assert forall|k: int| 0 <= k < all.len() implies attack_hits_enemy(
        game,
        machine,
        all[k],
    ) by {
        assert(all == n + e + s + w);
        if k < n.len() {
            assert(all[k] == n[0]);
        } else if k < n.len() + e.len() {
            assert(all[k] == e[k - n.len()]);
        } else if k < n.len() + e.len() + s.len() {
            assert(all[k] == s[k - n.len() - e.len()]);
        } else {
            assert(all[k] == w[k - n.len() - e.len() - s.len()]);
        }
    };
}

proof fn lemma_direction_field(game: Game, machine: GameMachine, direction: MachineDirection)
    ensures
        attacks_in_direction_spec(game, machine, direction) matches Some(a)
            ==> a.attack_direction_from_source == direction,
{
}

/// The attack list is a set: it holds at most one attack per cardinal
/// direction, so no attack is ever listed twice.
pub proof fn lemma_attacks_distinct(game: Game, machine: GameMachine)
    ensures
        forall|j: int, k: int|
            0 <= j < k < calculate_attacks_spec(game, machine).len() ==> (
            #[trigger] calculate_attacks_spec(game, machine)[j]).attack_direction_from_source != (
            #[trigger] calculate_attacks_spec(game, machine)[k]).attack_direction_from_source,
{
    lemma_direction_field(game, machine, MachineDirection::North);
    lemma_direction_field(game, machine, MachineDirection::East);
    lemma_direction_field(game, machine, MachineDirection::South);
    lemma_direction_field(game, machine, MachineDirection::West);
    let n = direction_attacks(attacks_in_direction_spec(game, machine, MachineDirection::North));
    let e = direction_attacks(attacks_in_direction_spec(game, machine, MachineDirection::East));
    let s = direction_attacks(attacks_in_direction_spec(game, machine, MachineDirection::South));
    let w = direction_attacks(attacks_in_direction_spec(game, machine, MachineDirection::West));
    let all = calculate_attacks_spec(game, machine);
    assert forall|j: int, k: int| 0 <= j < k < all.len() implies (
    #[trigger] all[j]).attack_direction_from_source != (
    #[trigger] all[k]).attack_direction_from_source by {
        assert(all == n + e + s + w);
        let jd = segment_direction(j, n.len() as int, e.len() as int, s.len() as int);
        let kd = segment_direction(k, n.len() as int, e.len() as int, s.len() as int);
        assert(all[j].attack_direction_from_source == jd);
        assert(all[k].attack_direction_from_source == kd);
        assert(jd != kd);
    };
}

/// Direction of the attack at position `i` of a four-segment attack list
/// whose North, East and South segments have the given lengths, each
/// segment holding at most one attack.
spec fn segment_direction(i: int, n: int, e: int, s: int) -> MachineDirection {
    if i < n {
        MachineDirection::North
    } else if i < n + e {
        MachineDirection::East
    } else if i < n + e + s {
        MachineDirection::South
    } else {
        MachineDirection::West
    }
}

/// Computing the attack list twice in the same unchanged game state gives
/// the same attacks in the same order: the result is a function of the game
/// and the unit alone.
pub proof fn lemma_attacks_deterministic(
    game: Game,
    machine: GameMachine,
    r1: Seq<Attack>,
    r2: Seq<Attack>,
)
    requires
        r1 == calculate_attacks_spec(game, machine),
        r2 == calculate_attacks_spec(game, machine),
    ensures
        r1 == r2,
{
}

/// Whether some attack in the sequence names the cell `(row, column)`.
pub open spec fn targets_cell(attacks: Seq<Attack>, row: int, column: int) -> bool {
    exists|k: int|
        0 <= k < attacks.len() && (#[trigger] attacks[k]).machine_row == row
            && attacks[k].machine_column == column
}

/// Whether some attack in the vector names the cell `(row, column)`.
pub fn any_attack_targets(attacks: &Vec<Attack>, row: usize, column: usize) -> (b: bool)
    ensures
        b == targets_cell(attacks@, row as int, column as int),
{
    let mut k: usize = 0;
    while k < attacks.len()
        invariant
            k <= attacks@.len(),
            forall|j: int|
                0 <= j < k ==> !((#[trigger] attacks@[j]).machine_row == row as int
                    && attacks@[j].machine_column == column as int),
        decreases attacks@.len() - k,
    {
        let a = attacks[k];
        if a.machine_row == row && a.machine_column == column {
            return true;
        }
        k = k + 1;
    }
    false
}

/// Which of a unit's facing-relative sides an attack strikes, as a lookup
/// over the attack's incoming direction and the unit's own facing.
pub open spec fn side_tangent_to_direction_spec(
    source_direction: MachineDirection,
    target_direction: MachineDirection,
) -> MachineSide {
    match source_direction {
        MachineDirection::North => match target_direction {
            MachineDirection::North => MachineSide::Rear,
            MachineDirection::East => MachineSide::Right,
            MachineDirection::South => MachineSide::Front,
            MachineDirection::West => MachineSide::Left,
        },
        MachineDirection::East => match target_direction {
            MachineDirection::North => MachineSide::Left,
            MachineDirection::East => MachineSide::Rear,
            MachineDirection::South => MachineSide::Right,
            MachineDirection::West => MachineSide::Front,
        },
        MachineDirection::South => match target_direction {
            MachineDirection::North => MachineSide::Front,
            MachineDirection::East => MachineSide::Left,
            MachineDirection::South => MachineSide::Rear,
            MachineDirection::West => MachineSide::Right,
        },
        MachineDirection::West => match target_direction {
            MachineDirection::North => MachineSide::Right,
            MachineDirection::East => MachineSide::Front,
            MachineDirection::South => MachineSide::Left,
            MachineDirection::West => MachineSide::Rear,
        },
    }
}

/// Executable counterpart of [`side_tangent_to_direction_spec`]: the side of
/// a unit facing `target_direction` that an attack travelling in
/// `source_direction` strikes.
pub fn side_tangent_to_direction(
    source_direction: MachineDirection,
    target_direction: MachineDirection,
) -> (s: MachineSide)
    ensures
        s == side_tangent_to_direction_spec(source_direction, target_direction),
{
    match source_direction {
        MachineDirection::North => match target_direction {
            MachineDirection::North => MachineSide::Rear,
            MachineDirection::East => MachineSide::Right,
            MachineDirection::South => MachineSide::Front,
            MachineDirection::West => MachineSide::Left,
        },
        MachineDirection::East => match target_direction {
            MachineDirection::North => MachineSide::Left,
            MachineDirection::East => MachineSide::Rear,
            MachineDirection::South => MachineSide::Right,
            MachineDirection::West => MachineSide::Front,
        },
        MachineDirection::South => match target_direction {
            MachineDirection::North => MachineSide::Front,
            MachineDirection::East => MachineSide::Left,
            MachineDirection::South => MachineSide::Rear,
            MachineDirection::West => MachineSide::Right,
        },
        MachineDirection::West => match target_direction {
            MachineDirection::North => MachineSide::Right,
            MachineDirection::East => MachineSide::Front,
            MachineDirection::South => MachineSide::Left,
            MachineDirection::West => MachineSide::Rear,
        },
    }
}

/// Terrain bonus of a skill when attacking: +1 when the unit's skill and the
/// terrain under it pair as Gallop with Grassland, Stalk with Forest,
/// HighGround with Mountain, or Climb with Hill.
pub open spec fn terrain_skill_bonus(game: Game, machine: GameMachine) -> int {
    let t = game.terrain_at(machine.row as int, machine.column as int);
    match machine.machine.skill {
        MachineSkill::Gallop => if t is Grassland {
            1int
        } else {
            0int
        },
        MachineSkill::Stalk => if t is Forest {
            1int
        } else {
            0int
        },
        MachineSkill::HighGround => if t is Mountain {
            1int
        } else {
            0int
        },
        MachineSkill::Climb => if t is Hill {
            1int
        } else {
            0int
        },
        _ => 0int,
    }
}

/// Skill modifier of an attacking unit: its terrain bonus, plus one for
/// every friendly Empower unit that can currently target it, minus one for
/// every enemy Blind unit that can currently target it.
pub open spec fn skill_modifier_when_attacking_spec(game: Game, machine: GameMachine) -> int {
    terrain_skill_bonus(game, machine) + game.count_able_to_target_spec(
        MachineSkill::Empower,
        machine.side,
        machine.row as int,
        machine.column as int,
    ) - game.count_able_to_target_spec(
        MachineSkill::Blind,
        machine.side.opposite_spec(),
        machine.row as int,
        machine.column as int,
    )
}

/// Skill modifier of a defending unit: +1 for Shield, 0 otherwise.
pub open spec fn skill_modifier_when_defending_spec(machine: GameMachine) -> int {
    if machine.machine.skill is Shield {
        1int
    } else {
        0int
    }
}

/// Armor modifier of a defending unit: +1 when the struck side is armored,
/// -1 when it is weak, 0 otherwise.
pub open spec fn armor_modifier_spec(machine: GameMachine, attack: Attack) -> int {
    let struck = side_tangent_to_direction_spec(
        attack.attack_direction_from_source,
        machine.direction,
    );
    if mask_contains(machine.machine.armored_sides, struck) {
        1int
    } else if mask_contains(machine.machine.weak_sides, struck) {
        -1int
    } else {
        0int
    }
}

/// Combat power of a unit involved in an attack. The base is the terrain
/// value under the unit's own cell, +1 for a Pull unit on marsh, +1 for a
/// flying unit. A unit on the side whose turn it is adds its attack stat and
/// its attacking skill modifier; a defending unit adds its armor modifier
/// for the struck side and its defending skill modifier.
pub open spec fn calculate_combat_power_spec(
    game: Game,
    machine: GameMachine,
    attack: Attack,
) -> int {
    let t = game.terrain_at(machine.row as int, machine.column as int);
    let base = t.value_spec() + (if machine.machine.is_pull_spec() && t is Marsh {
        1int
    } else {
        0int
    }) + (if machine.machine.is_flying_spec() {
        1int
    } else {
        0int
    });
    if machine.side == game.turn {
        base + machine.machine.attack + skill_modifier_when_attacking_spec(game, machine)
    } else {
        base + armor_modifier_spec(machine, attack) + skill_modifier_when_defending_spec(machine)
    }
}

/// Skill-based combat-power modifier of a defending unit.
pub fn get_skill_combat_power_modifier_when_defending(game: &Game, machine: &GameMachine) -> (m:
    i32)
    ensures
        m == skill_modifier_when_defending_spec(*machine),
{
    match machine.machine.skill {
        MachineSkill::Shield => 1,
        _ => 0,
    }
}

/// Skill-based combat-power modifier of an attacking unit: terrain bonus
/// plus friendly Empower contributors minus enemy Blind contributors.
pub fn get_skill_combat_power_modifier_when_attacking(game: &Game, machine: &GameMachine) -> (m:
    i32)
    requires
        game.wf(),
        machine.wf(),
    ensures
        m == skill_modifier_when_attacking_spec(*game, *machine),
        -64 <= m <= 65,
{
    let mut combat_power: i32 = 0;
    let terrain = game.board[cell_index(machine.row, machine.column)];
    match machine.machine.skill {
        MachineSkill::Gallop => {
            if terrain == Terrain::Grassland {
                combat_power = 1;
            }
        },
        MachineSkill::Stalk => {
            if terrain == Terrain::Forest {
                combat_power = 1;
            }
        },
        MachineSkill::HighGround => {
            if terrain == Terrain::Mountain {
                combat_power = 1;
            }
        },
        MachineSkill::Climb => {
            if terrain == Terrain::Hill {
                combat_power = 1;
            }
        },
        _ => {},
    }
    let empower = game.count_machines_with_skill_able_to_attack_target_machine(
        machine,
        MachineSkill::Empower,
        machine.side,
    );
    let blind = game.count_machines_with_skill_able_to_attack_target_machine(
        machine,
        MachineSkill::Blind,
        machine.side.opposite(),
    );
    combat_power + empower - blind
}

/// Fully modified combat power of the unit for the given attack. A unit on
/// the side whose turn it is counts as attacking; any other unit counts as
/// defending.
pub fn calculate_combat_power(game: &Game, machine: &GameMachine, attack: &Attack) -> (power: i32)
    requires
        game.wf(),
        machine.wf(),
    ensures
        power == calculate_combat_power_spec(*game, *machine, *attack),
        -66 <= power <= 1070,
{
    let terrain = game.board[cell_index(machine.row, machine.column)];
    let mut combat_power: i32 = terrain.value();
    if machine.machine.is_pull() && terrain == Terrain::Marsh {
        combat_power = combat_power + 1;
    }
    if machine.machine.is_flying() {
        combat_power = combat_power + 1;
    }
    if machine.side == game.turn {
        combat_power = combat_power + machine.machine.attack;
        combat_power + get_skill_combat_power_modifier_when_attacking(game, machine)
    } else {
        let struck = side_tangent_to_direction(
            attack.attack_direction_from_source,
            machine.direction,
        );
        let mask = struck.mask();
        if machine.machine.armored_sides & mask != 0 {
            combat_power = combat_power + 1;
        } else if machine.machine.weak_sides & mask != 0 {
            combat_power = combat_power - 1;
        }
        combat_power + get_skill_combat_power_modifier_when_defending(game, machine)
    }
}

} // verus!
