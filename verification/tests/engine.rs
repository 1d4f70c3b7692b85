use machine_strike::attacks::Attack;
use machine_strike::enums::EngineError;
use machine_strike::enums::MachineDirection;
use machine_strike::enums::MachineSkill;
use machine_strike::enums::MachineState;
use machine_strike::enums::MachineType;
use machine_strike::enums::Player;
use machine_strike::enums::Terrain;
use machine_strike::game::Game;
use machine_strike::game_machine::GameMachine;
use machine_strike::machine::Machine;
use machine_strike::moves::Move;

fn grassland_board() -> Vec<Terrain> {
    let mut board = Vec::new();
    for _ in 0..64 {
        board.push(Terrain::Grassland);
    }
    board
}

fn empty_units() -> Vec<Option<GameMachine>> {
    let mut units = Vec::new();
    for _ in 0..64 {
        units.push(None);
    }
    units
}

fn template(machine_type: MachineType, attack: i32, range: i32) -> Machine {
    Machine {
        name: "Test",
        skill: MachineSkill::NoSkill,
        machine_type,
        armored_sides: 1,
        weak_sides: 8,
        health: 5,
        attack,
        range,
        movement: 2,
        points: 1,
    }
}

fn unit(
    machine: Machine,
    row: usize,
    column: usize,
    side: Player,
    direction: MachineDirection,
) -> GameMachine {
    GameMachine {
        machine,
        health: machine.health,
        direction,
        row,
        column,
        machine_state: MachineState::Ready,
        side,
    }
}

fn place(game: &mut Game, u: GameMachine) {
    game.machines[u.row * 8 + u.column] = Some(u);
}

fn attack(
    direction: MachineDirection,
    source: (usize, usize),
    target: (usize, usize),
) -> Attack {
    Attack {
        attack_direction_from_source: direction,
        machine_row: target.0,
        machine_column: target.1,
        source_row: source.0,
        source_column: source.1,
    }
}

fn at(game: &Game, row: usize, column: usize) -> GameMachine {
    game.machines[row * 8 + column].expect("expected a unit")
}

#[test]
fn make_move_relocates_and_marks_moved() {
    let mut game = Game {
        board: grassland_board(),
        machines: empty_units(),
        turn: Player::Player,
    };
    let mover = unit(
        template(MachineType::Melee, 2, 1),
        3,
        3,
        Player::Player,
        MachineDirection::East,
    );
    place(&mut game, mover);
    let m = Move {
        source_row: 3,
        source_column: 3,
        destination_row: 3,
        destination_column: 5,
        requires_sprint: false,
        found_at_depth: 2,
    };
    assert_eq!(game.make_move(&m), Ok(()));
    assert!(game.machines[3 * 8 + 3].is_none());
    let moved = at(&game, 3, 5);
    assert_eq!((moved.row, moved.column), (3, 5));
    assert_eq!(moved.machine_state, MachineState::Moved);
    assert_eq!(moved.health, 5);
}

#[test]
fn make_move_with_sprint_marks_sprinted() {
    let mut game = Game {
        board: grassland_board(),
        machines: empty_units(),
        turn: Player::Player,
    };
    let mover = unit(
        template(MachineType::Melee, 2, 1),
        0,
        0,
        Player::Player,
        MachineDirection::East,
    );
    place(&mut game, mover);
    let m = Move {
        source_row: 0,
        source_column: 0,
        destination_row: 3,
        destination_column: 0,
        requires_sprint: true,
        found_at_depth: 3,
    };
    assert_eq!(game.make_move(&m), Ok(()));
    assert_eq!(at(&game, 3, 0).machine_state, MachineState::Sprinted);
}

#[test]
fn make_move_reports_errors_and_changes_nothing() {
    let mut game = Game {
        board: grassland_board(),
        machines: empty_units(),
        turn: Player::Player,
    };
    let m = Move {
        source_row: 3,
        source_column: 3,
        destination_row: 3,
        destination_column: 4,
        requires_sprint: false,
        found_at_depth: 1,
    };
    assert_eq!(game.make_move(&m), Err(EngineError::InvalidReference));
    let out = Move {
        source_row: 3,
        source_column: 3,
        destination_row: 8,
        destination_column: 4,
        requires_sprint: false,
        found_at_depth: 1,
    };
    assert_eq!(game.make_move(&out), Err(EngineError::OutOfRange));
    assert!(game.machines.iter().all(|c| c.is_none()));
}

#[test]
fn melee_attack_damages_defender_and_marks_attacked() {
    let mut game = Game {
        board: grassland_board(),
        machines: empty_units(),
        turn: Player::Player,
    };
    let attacker = unit(
        template(MachineType::Melee, 3, 1),
        3,
        3,
        Player::Player,
        MachineDirection::East,
    );
    place(&mut game, attacker);
    // Struck on its Left side: no armor or weakness involved.
    let defender = unit(
        template(MachineType::Melee, 2, 1),
        3,
        4,
        Player::Opponent,
        MachineDirection::North,
    );
    place(&mut game, defender);
    let a = attack(MachineDirection::East, (3, 3), (3, 4));
    assert_eq!(game.make_attack(&a), Ok(()));
    // Attacker power 3, defender power 0: three damage.
    assert_eq!(at(&game, 3, 4).health, 2);
    assert_eq!(at(&game, 3, 3).machine_state, MachineState::Attacked);
    assert_eq!(at(&game, 3, 4).machine_state, MachineState::Ready);
}

#[test]
fn ram_push_into_occupied_cell_damages_both_and_advances_attacker() {
    let mut game = Game {
        board: grassland_board(),
        machines: empty_units(),
        turn: Player::Player,
    };
    let rammer = unit(
        template(MachineType::Ram, 2, 2),
        3,
        2,
        Player::Player,
        MachineDirection::East,
    );
    place(&mut game, rammer);
    let defender = unit(
        template(MachineType::Melee, 2, 1),
        3,
        4,
        Player::Opponent,
        MachineDirection::North,
    );
    place(&mut game, defender);
    let occupant = unit(
        template(MachineType::Melee, 2, 1),
        3,
        5,
        Player::Opponent,
        MachineDirection::North,
    );
    place(&mut game, occupant);
    let a = attack(MachineDirection::East, (3, 2), (3, 4));
    assert_eq!(game.make_attack(&a), Ok(()));
    // Attacker power 2, defender power 0: two damage, plus one for the
    // blocked push; the occupant takes exactly one.
    assert_eq!(at(&game, 3, 4).health, 2);
    assert_eq!(at(&game, 3, 5).health, 4);
    // The attacker advanced into the fallback cell; its old cell is empty.
    assert!(game.machines[3 * 8 + 2].is_none());
    let advanced = at(&game, 3, 3);
    assert_eq!(advanced.machine.machine_type, MachineType::Ram);
    assert_eq!((advanced.row, advanced.column), (3, 3));
}

#[test]
fn ram_push_into_empty_cell_relocates_defender_only() {
    let mut game = Game {
        board: grassland_board(),
        machines: empty_units(),
        turn: Player::Player,
    };
    let rammer = unit(
        template(MachineType::Ram, 2, 1),
        3,
        3,
        Player::Player,
        MachineDirection::East,
    );
    place(&mut game, rammer);
    let defender = unit(
        template(MachineType::Melee, 2, 1),
        3,
        4,
        Player::Opponent,
        MachineDirection::North,
    );
    place(&mut game, defender);
    let a = attack(MachineDirection::East, (3, 3), (3, 4));
    assert_eq!(game.make_attack(&a), Ok(()));
    assert!(game.machines[3 * 8 + 4].is_none());
    let pushed = at(&game, 3, 5);
    assert_eq!(pushed.health, 3);
    assert_eq!((pushed.row, pushed.column), (3, 5));
    // The attacker stays put on an unobstructed push.
    assert_eq!(at(&game, 3, 3).machine.machine_type, MachineType::Ram);
}

#[test]
fn pull_into_occupied_cell_damages_both_without_moving() {
    let mut game = Game {
        board: grassland_board(),
        machines: empty_units(),
        turn: Player::Player,
    };
    let puller = unit(
        template(MachineType::Pull, 3, 3),
        3,
        2,
        Player::Player,
        MachineDirection::East,
    );
    place(&mut game, puller);
    let defender = unit(
        template(MachineType::Melee, 2, 1),
        3,
        5,
        Player::Opponent,
        MachineDirection::North,
    );
    place(&mut game, defender);
    let occupant = unit(
        template(MachineType::Melee, 2, 1),
        3,
        4,
        Player::Opponent,
        MachineDirection::North,
    );
    place(&mut game, occupant);
    let a = attack(MachineDirection::East, (3, 2), (3, 5));
    assert_eq!(game.make_attack(&a), Ok(()));
    // Attacker power 3, defender power 0: three damage plus one for the
    // blocked pull; the occupant takes exactly one; nobody moves.
    assert_eq!(at(&game, 3, 5).health, 1);
    assert_eq!(at(&game, 3, 4).health, 4);
    assert_eq!((at(&game, 3, 5).row, at(&game, 3, 5).column), (3, 5));
}

#[test]
fn pull_into_empty_cell_drags_defender_closer() {
    let mut game = Game {
        board: grassland_board(),
        machines: empty_units(),
        turn: Player::Player,
    };
    let puller = unit(
        template(MachineType::Pull, 3, 3),
        3,
        2,
        Player::Player,
        MachineDirection::East,
    );
    place(&mut game, puller);
    let defender = unit(
        template(MachineType::Melee, 2, 1),
        3,
        5,
        Player::Opponent,
        MachineDirection::North,
    );
    place(&mut game, defender);
    let a = attack(MachineDirection::East, (3, 2), (3, 5));
    assert_eq!(game.make_attack(&a), Ok(()));
    assert!(game.machines[3 * 8 + 5].is_none());
    let dragged = at(&game, 3, 4);
    assert_eq!(dragged.health, 2);
    assert_eq!((dragged.row, dragged.column), (3, 4));
}

#[test]
fn pull_at_range_one_hits_the_attacker_as_occupant() {
    let mut game = Game {
        board: grassland_board(),
        machines: empty_units(),
        turn: Player::Player,
    };
    let puller = unit(
        template(MachineType::Pull, 3, 1),
        3,
        3,
        Player::Player,
        MachineDirection::East,
    );
    place(&mut game, puller);
    let defender = unit(
        template(MachineType::Melee, 2, 1),
        3,
        4,
        Player::Opponent,
        MachineDirection::North,
    );
    place(&mut game, defender);
    // The pull destination is the attacker's own cell, so the attacker is
    // the occupant and takes the extra point itself.
    let a = attack(MachineDirection::East, (3, 3), (3, 4));
    assert_eq!(game.make_attack(&a), Ok(()));
    assert_eq!(at(&game, 3, 4).health, 1);
    assert_eq!(at(&game, 3, 3).health, 4);
}

#[test]
fn push_north_at_row_zero_fails_out_of_range() {
    let mut game = Game {
        board: grassland_board(),
        machines: empty_units(),
        turn: Player::Player,
    };
    let rammer = unit(
        template(MachineType::Ram, 2, 1),
        1,
        0,
        Player::Player,
        MachineDirection::North,
    );
    place(&mut game, rammer);
    let defender = unit(
        template(MachineType::Melee, 2, 1),
        0,
        0,
        Player::Opponent,
        MachineDirection::East,
    );
    place(&mut game, defender);
    let a = attack(MachineDirection::North, (1, 0), (0, 0));
    assert_eq!(game.make_attack(&a), Err(EngineError::OutOfRange));
    // Nothing changed, not even health.
    assert_eq!(at(&game, 0, 0).health, 5);
    assert_eq!(at(&game, 1, 0).health, 5);
}

#[test]
fn pull_beyond_row_zero_fails_out_of_range() {
    let mut game = Game {
        board: grassland_board(),
        machines: empty_units(),
        turn: Player::Player,
    };
    let puller = unit(
        template(MachineType::Pull, 3, 3),
        0,
        2,
        Player::Player,
        MachineDirection::East,
    );
    place(&mut game, puller);
    let defender = unit(
        template(MachineType::Melee, 2, 1),
        0,
        3,
        Player::Opponent,
        MachineDirection::East,
    );
    place(&mut game, defender);
    // A southward pull would drag the defender off the top of the board.
    let a = attack(MachineDirection::South, (0, 2), (0, 3));
    assert_eq!(game.make_attack(&a), Err(EngineError::OutOfRange));
    assert_eq!(at(&game, 0, 3).health, 5);
}

#[test]
fn defense_break_is_reported_unresolved() {
    let mut game = Game {
        board: grassland_board(),
        machines: empty_units(),
        turn: Player::Player,
    };
    let attacker = unit(
        template(MachineType::Melee, 0, 1),
        3,
        3,
        Player::Player,
        MachineDirection::East,
    );
    place(&mut game, attacker);
    let defender = unit(
        template(MachineType::Melee, 2, 1),
        3,
        4,
        Player::Opponent,
        MachineDirection::North,
    );
    place(&mut game, defender);
    let a = attack(MachineDirection::East, (3, 3), (3, 4));
    assert_eq!(game.make_attack(&a), Err(EngineError::DefenseBreakUnresolved));
    assert_eq!(at(&game, 3, 4).health, 5);
}

#[test]
fn dash_attack_is_reported_unresolved() {
    let mut game = Game {
        board: grassland_board(),
        machines: empty_units(),
        turn: Player::Player,
    };
    let dasher = unit(
        template(MachineType::Dash, 4, 2),
        3,
        3,
        Player::Player,
        MachineDirection::East,
    );
    place(&mut game, dasher);
    let defender = unit(
        template(MachineType::Melee, 2, 1),
        3,
        4,
        Player::Opponent,
        MachineDirection::North,
    );
    place(&mut game, defender);
    let a = attack(MachineDirection::East, (3, 3), (3, 5));
    assert_eq!(game.make_attack(&a), Err(EngineError::DashUnresolved));
}

#[test]
fn attack_on_empty_cell_is_invalid_reference() {
    let mut game = Game {
        board: grassland_board(),
        machines: empty_units(),
        turn: Player::Player,
    };
    let attacker = unit(
        template(MachineType::Melee, 3, 1),
        3,
        3,
        Player::Player,
        MachineDirection::East,
    );
    place(&mut game, attacker);
    let a = attack(MachineDirection::East, (3, 3), (3, 4));
    assert_eq!(game.make_attack(&a), Err(EngineError::InvalidReference));
    let from_empty = attack(MachineDirection::East, (5, 5), (3, 3));
    assert_eq!(game.make_attack(&from_empty), Err(EngineError::InvalidReference));
}

#[test]
fn occupancy_and_lookup_accessors() {
    let mut game = Game {
        board: grassland_board(),
        machines: empty_units(),
        turn: Player::Player,
    };
    let u = unit(
        template(MachineType::Gunner, 3, 2),
        6,
        1,
        Player::Opponent,
        MachineDirection::West,
    );
    place(&mut game, u);
    assert!(game.is_space_occupied(6, 1));
    assert!(!game.is_space_occupied(6, 2));
    let found = game.get_machine(6, 1).expect("unit expected");
    assert_eq!(found.machine.machine_type, MachineType::Gunner);
    assert!(game.get_machine(0, 0).is_none());
}
