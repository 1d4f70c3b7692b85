//! Rules engine for a turn-based tactical combat game on an 8x8 grid.
//!
//! Units ("machines") with distinct movement and attack profiles occupy
//! terrain-typed cells and fight according to facing, armor, and skill rules.
//! The engine is a pure, synchronous rule evaluator: a driver selects a unit,
//! lists its legal destinations with `calculate_moves`, applies one with
//! `Game::make_move`, lists legal attacks with `calculate_attacks`, and
//! resolves one with `Game::make_attack`.

pub mod attacks;
pub mod enums;
pub mod game;
pub mod game_machine;
pub mod grid;
pub mod machine;
pub mod moves;
