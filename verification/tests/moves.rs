use machine_strike::enums::MachineDirection;
use machine_strike::enums::MachineSkill;
use machine_strike::enums::MachineState;
use machine_strike::enums::MachineType;
use machine_strike::enums::Player;
use machine_strike::enums::Terrain;
use machine_strike::game::Game;
use machine_strike::game_machine::GameMachine;
use machine_strike::machine::Machine;
use machine_strike::moves::calculate_moves;
use machine_strike::moves::Move;

fn grassland_board() -> Vec<Terrain> {
    let mut board = Vec::new();
    for _ in 0..64 {
        board.push(Terrain::Grassland);
    }
    board
}

fn empty_units() -> Vec<Option<GameMachine>> {
    let mut units = Vec::new();
    for _ in 0..64 {
        units.push(None);
    }
    units
}

fn template(machine_type: MachineType, movement: i32) -> Machine {
    Machine {
        name: "Test",
        skill: MachineSkill::NoSkill,
        machine_type,
        armored_sides: 1,
        weak_sides: 8,
        health: 5,
        attack: 2,
        range: 1,
        movement,
        points: 1,
    }
}

fn unit(machine: Machine, row: usize, column: usize, side: Player) -> GameMachine {
    GameMachine {
        machine,
        health: machine.health,
        direction: MachineDirection::East,
        row,
        column,
        machine_state: MachineState::Ready,
        side,
    }
}

fn place(game: &mut Game, u: GameMachine) {
    game.machines[u.row * 8 + u.column] = Some(u);
}

fn has_destination(moves: &[Move], row: usize, column: usize) -> bool {
    moves
        .iter()
        .any(|m| m.destination_row == row && m.destination_column == column)
}

fn sprint_at(moves: &[Move], row: usize, column: usize) -> bool {
    moves
        .iter()
        .find(|m| m.destination_row == row && m.destination_column == column)
        .expect("destination missing")
        .requires_sprint
}

#[test]
fn open_board_movement_one_reaches_two_rings() {
    let mut game = Game {
        board: grassland_board(),
        machines: empty_units(),
        turn: Player::Player,
    };
    let mover = unit(template(MachineType::Melee, 1), 3, 3, Player::Player);
    place(&mut game, mover);
    let moves = calculate_moves(&game, &mover);
    // Distance-1 diamond without a sprint, distance-2 diamond with one.
    assert_eq!(moves.len(), 12);
    assert!(has_destination(&moves, 2, 3));
    assert!(!sprint_at(&moves, 2, 3));
    assert!(has_destination(&moves, 1, 3));
    assert!(sprint_at(&moves, 1, 3));
    assert!(has_destination(&moves, 2, 2));
    assert!(sprint_at(&moves, 2, 2));
    // The unit's own cell is never a destination.
    assert!(!has_destination(&moves, 3, 3));
    for m in moves.iter() {
        assert!(m.destination_row < 8 && m.destination_column < 8);
        assert!(game.machines[m.destination_row * 8 + m.destination_column].is_none());
        assert_eq!((m.source_row, m.source_column), (3, 3));
    }
}

#[test]
fn occupied_cells_are_excluded_and_block() {
    let mut game = Game {
        board: grassland_board(),
        machines: empty_units(),
        turn: Player::Player,
    };
    let mover = unit(template(MachineType::Melee, 2), 3, 3, Player::Player);
    place(&mut game, mover);
    // One friendly and one enemy neighbor: both are excluded.
    place(&mut game, unit(template(MachineType::Melee, 2), 3, 4, Player::Player));
    place(&mut game, unit(template(MachineType::Melee, 2), 2, 3, Player::Opponent));
    let moves = calculate_moves(&game, &mover);
    assert!(!has_destination(&moves, 3, 4));
    assert!(!has_destination(&moves, 2, 3));
    for m in moves.iter() {
        assert!(game.machines[m.destination_row * 8 + m.destination_column].is_none());
    }
}

#[test]
fn flying_unit_reaches_chasm_cell_that_walker_cannot() {
    let mut board = grassland_board();
    board[3 * 8 + 4] = Terrain::Chasm;
    let mut game = Game {
        board,
        machines: empty_units(),
        turn: Player::Player,
    };
    let walker = unit(template(MachineType::Melee, 2), 3, 3, Player::Player);
    place(&mut game, walker);
    let walker_moves = calculate_moves(&game, &walker);
    assert!(!has_destination(&walker_moves, 3, 4));

    let mut game = Game {
        board: game.board,
        machines: empty_units(),
        turn: Player::Player,
    };
    let flyer = unit(template(MachineType::Swoop, 2), 3, 3, Player::Player);
    place(&mut game, flyer);
    let flyer_moves = calculate_moves(&game, &flyer);
    assert!(has_destination(&flyer_moves, 3, 4));
}

#[test]
fn marsh_is_reachable_but_halts_further_movement() {
    let mut board = grassland_board();
    board[3 * 8 + 4] = Terrain::Marsh;
    let mut game = Game {
        board,
        machines: empty_units(),
        turn: Player::Player,
    };
    let mover = unit(template(MachineType::Melee, 3), 3, 3, Player::Player);
    place(&mut game, mover);
    // Wall in row 3 so that the cells east of the marsh can only be reached
    // through it.
    for (r, c) in [(2, 3), (4, 3), (2, 4), (4, 4), (2, 5), (4, 5)] {
        place(&mut game, unit(template(MachineType::Melee, 1), r, c, Player::Opponent));
    }
    let moves = calculate_moves(&game, &mover);
    assert!(has_destination(&moves, 3, 4));
    assert!(!has_destination(&moves, 3, 5));
}

#[test]
fn unit_standing_on_marsh_may_step_off() {
    let mut board = grassland_board();
    board[3 * 8 + 3] = Terrain::Marsh;
    let mut game = Game {
        board,
        machines: empty_units(),
        turn: Player::Player,
    };
    let mover = unit(template(MachineType::Melee, 1), 3, 3, Player::Player);
    place(&mut game, mover);
    let moves = calculate_moves(&game, &mover);
    assert!(has_destination(&moves, 3, 4));
    assert!(has_destination(&moves, 2, 3));
}

#[test]
fn pull_unit_keeps_moving_through_marsh() {
    let mut board = grassland_board();
    board[3 * 8 + 4] = Terrain::Marsh;
    let mut game = Game {
        board,
        machines: empty_units(),
        turn: Player::Player,
    };
    let mover = unit(template(MachineType::Pull, 2), 3, 3, Player::Player);
    place(&mut game, mover);
    for (r, c) in [(2, 3), (4, 3), (2, 4), (4, 4), (2, 5), (4, 5)] {
        place(&mut game, unit(template(MachineType::Melee, 1), r, c, Player::Opponent));
    }
    let moves = calculate_moves(&game, &mover);
    assert!(has_destination(&moves, 3, 4));
    assert!(has_destination(&moves, 3, 5));
}

#[test]
fn calculate_moves_is_idempotent() {
    let mut game = Game {
        board: grassland_board(),
        machines: empty_units(),
        turn: Player::Player,
    };
    let mover = unit(template(MachineType::Melee, 2), 4, 2, Player::Player);
    place(&mut game, mover);
    place(&mut game, unit(template(MachineType::Melee, 2), 4, 3, Player::Opponent));
    let first = calculate_moves(&game, &mover);
    let second = calculate_moves(&game, &mover);
    assert_eq!(first, second);
}
