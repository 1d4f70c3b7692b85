//! The shared game state: the terrain grid, the unit grid, and whose turn it
//! is, together with the state-mutating operations.

use vstd::prelude::*;

use crate::attacks::any_attack_targets;
use crate::attacks::calculate_attacks;
use crate::attacks::calculate_attacks_spec;
use crate::attacks::calculate_combat_power;
use crate::attacks::calculate_combat_power_spec;
use crate::attacks::targets_cell;
use crate::attacks::Attack;
use crate::enums::EngineError;
use crate::enums::MachineSkill;
use crate::enums::MachineState;
use crate::enums::MachineType;
use crate::enums::Player;
use crate::enums::Terrain;
use crate::game_machine::GameMachine;
use crate::grid::cell;
use crate::grid::cell_index;
use crate::grid::in_bounds;
use crate::grid::step_cell;
use crate::moves::calculate_moves_spec;
use crate::moves::lemma_moves_allowed;
use crate::moves::move_allowed;
use crate::moves::Move;

verus! {

/// Health after taking `damage` points, saturating at the lowest `i32`
/// value. Health may go negative; kill handling is the driver's concern.
pub open spec fn damaged_spec(health: i32, damage: int) -> i32
    recommends
        damage >= 0,
{
    if health - damage < i32::MIN {
        i32::MIN
    } else {
        (health - damage) as i32
    }
}

/// Health after taking `damage` points, saturating at the lowest `i32`
/// value.
pub fn apply_damage(health: i32, damage: i32) -> (r: i32)
    requires
        damage >= 0,
    ensures
        r == damaged_spec(health, damage as int),
{
    if health < i32::MIN + damage {
        i32::MIN
    } else {
        health - damage
    }
}

/// Outcome reported by [`Game::make_move`]: the move fails when a
/// referenced cell is out of bounds or the source cell holds no unit.
pub open spec fn make_move_check_spec(g: Game, m: Move) -> Result<(), EngineError> {
    if !in_bounds(m.source_row as int, m.source_column as int) || !in_bounds(
        m.destination_row as int,
        m.destination_column as int,
    ) {
        Err(EngineError::OutOfRange)
    } else if g.machines@[cell(m.source_row as int, m.source_column as int)] is None {
        Err(EngineError::InvalidReference)
    } else {
        Ok(())
    }
}

/// The unit grid after a successful move: the moved unit leaves its source
/// cell, lands on the destination cell with its coordinates updated, and its
/// state becomes Sprinted or Moved according to the move.
pub open spec fn machines_after_move_spec(g: Game, m: Move) -> Seq<Option<GameMachine>> {
    let src = cell(m.source_row as int, m.source_column as int);
    let dst = cell(m.destination_row as int, m.destination_column as int);
    match g.machines@[src] {
        Some(u) => {
            let nu = GameMachine {
                row: m.destination_row,
                column: m.destination_column,
                machine_state: if m.requires_sprint {
                    MachineState::Sprinted
                } else {
                    MachineState::Moved
                },
                ..u
            };
            g.machines@.update(src, None).update(dst, Some(nu))
        },
        None => g.machines@,
    }
}

/// Outcome reported by [`Game::make_attack`], checked in this order: a
/// referenced cell out of bounds; an empty source cell; a Dash attacker
/// (unresolved rule path, checked before the target since a Dash attack
/// names an empty landing cell); an empty target cell; attacker power not
/// exceeding defender power (unresolved defense break); a pull or push
/// destination, or a ram fallback cell, off the board.
pub open spec fn make_attack_check_spec(g: Game, a: Attack) -> Result<(), EngineError> {
    if !in_bounds(a.source_row as int, a.source_column as int) || !in_bounds(
        a.machine_row as int,
        a.machine_column as int,
    ) {
        Err(EngineError::OutOfRange)
    } else {
        let attacker_opt = g.machines@[cell(a.source_row as int, a.source_column as int)];
        let defender_opt = g.machines@[cell(a.machine_row as int, a.machine_column as int)];
        match attacker_opt {
            Some(attacker) => if attacker.machine.machine_type is Dash {
                Err(EngineError::DashUnresolved)
            } else {
                match defender_opt {
                    Some(defender) => if calculate_combat_power_spec(g, attacker, a)
                        <= calculate_combat_power_spec(g, defender, a) {
                    Err(EngineError::DefenseBreakUnresolved)
                } else {
                    match attacker.machine.machine_type {
                        MachineType::Pull => {
                            let back = a.attack_direction_from_source.reverse_spec();
                            if in_bounds(
                                back.step_row(a.machine_row as int),
                                back.step_column(a.machine_column as int),
                            ) {
                                Ok(())
                            } else {
                                Err(EngineError::OutOfRange)
                            }
                        },
                        MachineType::Ram => {
                            let ahead = a.attack_direction_from_source;
                            let back = ahead.reverse_spec();
                            if in_bounds(
                                ahead.step_row(a.machine_row as int),
                                ahead.step_column(a.machine_column as int),
                            ) && in_bounds(
                                back.step_row(a.machine_row as int),
                                back.step_column(a.machine_column as int),
                            ) {
                                Ok(())
                            } else {
                                Err(EngineError::OutOfRange)
                            }
                        },
                        _ => Ok(()),
                    }
                },
                    None => Err(EngineError::InvalidReference),
                }
            },
            None => Err(EngineError::InvalidReference),
        }
    }
}

/// The unit grid after a successful attack. The defender takes the power
/// difference as damage. A Gunner, Melee or Swoop attacker then rests with
/// state Attacked. A Pull attacker drags the defender one cell toward
/// itself, or, when that cell is occupied, deals one extra damage to both
/// the defender and the occupant and nobody moves. A Ram attacker pushes
/// the defender one cell away, or, when that cell is occupied, deals one
/// extra damage to both and advances itself into the fallback cell in front
/// of the defender.
pub open spec fn machines_after_attack_spec(g: Game, a: Attack) -> Seq<Option<GameMachine>> {
    let src = cell(a.source_row as int, a.source_column as int);
    let tgt = cell(a.machine_row as int, a.machine_column as int);
    match (g.machines@[src], g.machines@[tgt]) {
        (Some(attacker), Some(defender)) => {
            let damage = calculate_combat_power_spec(g, attacker, a) - calculate_combat_power_spec(
                g,
                defender,
                a,
            );
            match attacker.machine.machine_type {
                MachineType::Gunner | MachineType::Melee | MachineType::Swoop => {
                    let def2 = GameMachine {
                        health: damaged_spec(defender.health, damage),
                        ..defender
                    };
                    let att2 = GameMachine { machine_state: MachineState::Attacked, ..attacker };
                    g.machines@.update(tgt, Some(def2)).update(src, Some(att2))
                },
                MachineType::Pull => {
                    let back = a.attack_direction_from_source.reverse_spec();
                    let pr = back.step_row(a.machine_row as int);
                    let pc = back.step_column(a.machine_column as int);
                    let pulled = cell(pr, pc);
                    match g.machines@[pulled] {
                        Some(occ) => {
                            let def2 = GameMachine {
                                health: damaged_spec(damaged_spec(defender.health, damage), 1),
                                ..defender
                            };
                            let occ2 = GameMachine { health: damaged_spec(occ.health, 1), ..occ };
                            g.machines@.update(tgt, Some(def2)).update(pulled, Some(occ2))
                        },
                        None => {
                            let def2 = GameMachine {
                                health: damaged_spec(defender.health, damage),
                                row: pr as usize,
                                column: pc as usize,
                                ..defender
                            };
                            g.machines@.update(tgt, None).update(pulled, Some(def2))
                        },
                    }
                },
                MachineType::Ram => {
                    let ahead = a.attack_direction_from_source;
                    let back = ahead.reverse_spec();
                    let pr = ahead.step_row(a.machine_row as int);
                    let pc = ahead.step_column(a.machine_column as int);
                    let pushed = cell(pr, pc);
                    let fr = back.step_row(a.machine_row as int);
                    let fc = back.step_column(a.machine_column as int);
                    let fall = cell(fr, fc);
                    match g.machines@[pushed] {
                        Some(occ) => {
                            let def2 = GameMachine {
                                health: damaged_spec(damaged_spec(defender.health, damage), 1),
                                ..defender
                            };
                            let occ2 = GameMachine { health: damaged_spec(occ.health, 1), ..occ };
                            let s1 = g.machines@.update(tgt, Some(def2)).update(
                                pushed,
                                Some(occ2),
                            );
                            match s1[src] {
                                Some(u) => s1.update(src, None).update(
                                    fall,
                                    Some(
                                        GameMachine {
                                            row: fr as usize,
                                            column: fc as usize,
                                            ..u
                                        },
                                    ),
                                ),
                                None => s1.update(src, None).update(fall, None),
                            }
                        },
                        None => {
                            let def2 = GameMachine {
                                health: damaged_spec(defender.health, damage),
                                row: pr as usize,
                                column: pc as usize,
                                ..defender
                            };
                            g.machines@.update(tgt, None).update(pushed, Some(def2))
                        },
                    }
                },
                MachineType::Dash => g.machines@,
            }
        },
        _ => g.machines@,
    }
}

/// Success is owed for reported moves: every move the movement engine
/// lists for a unit standing on its own cell of the board is accepted by
/// [`Game::make_move`].
pub proof fn lemma_reported_moves_accepted(g: Game, machine: GameMachine, k: int)
    requires
        machine.wf(),
        g.machines@[cell(machine.row as int, machine.column as int)] is Some,
        0 <= k < calculate_moves_spec(g, machine).len(),
    ensures
        make_move_check_spec(g, calculate_moves_spec(g, machine)[k]) is Ok,
{
    lemma_moves_allowed(g, machine);
    assert(move_allowed(g, machine, calculate_moves_spec(g, machine)[k]));
}

/// The aggregate game state. Both grids are stored row-major with 64
/// entries; see [`crate::grid`]. Each unit-grid cell owns at most one unit,
/// and a stored unit's own coordinates name exactly the cell that holds it.
pub struct Game {
    pub board: Vec<Terrain>,
    pub machines: Vec<Option<GameMachine>>,
    pub turn: Player,
}

impl Game {
    /// Well-formedness of the game state: both grids have 64 cells, every
    /// placed unit is well formed, and every placed unit's coordinates agree
    /// with the slot that holds it.
    pub open spec fn wf(self) -> bool {
        &&& self.board@.len() == 64
        &&& self.machines@.len() == 64
        &&& forall|i: int|
            0 <= i < 64 ==> (#[trigger] self.machines@[i] matches Some(m) ==> m.wf()
                && cell(m.row as int, m.column as int) == i)
    }

    /// Terrain of the cell at the given coordinates.
    pub open spec fn terrain_at(self, row: int, column: int) -> Terrain {
        self.board@[cell(row, column)]
    }

    /// The unit standing at the given coordinates, if any.
    pub open spec fn machine_at(self, row: int, column: int) -> Option<GameMachine> {
        self.machines@[cell(row, column)]
    }

    /// Whether a unit stands at the given coordinates.
    pub fn is_space_occupied(&self, row: usize, column: usize) -> (b: bool)
        requires
            self.wf(),
            row < 8,
            column < 8,
        ensures
            b == self.machine_at(row as int, column as int) is Some,
    {
        self.machines[cell_index(row, column)].is_some()
    }

    /// The unit standing at the given coordinates, if any, by value.
    pub fn get_machine(&self, row: usize, column: usize) -> (m: Option<GameMachine>)
        requires
            self.wf(),
            row < 8,
            column < 8,
        ensures
            m == self.machine_at(row as int, column as int),
    {
        self.machines[cell_index(row, column)]
    }

    /// Whether the unit `m` gets, in the current state, an attack that names
    /// the cell `(row, column)`.
    pub open spec fn can_target_cell(self, m: GameMachine, row: int, column: int) -> bool {
        targets_cell(calculate_attacks_spec(self, m), row, column)
    }

    /// Whether the unit at grid index `i`, if any, has the given skill and
    /// side and can currently target the cell `(row, column)`.
    pub open spec fn qualifying_attacker(
        self,
        i: int,
        skill: MachineSkill,
        side: Player,
        row: int,
        column: int,
    ) -> bool {
        self.machines@[i] matches Some(m) && m.machine.skill == skill && m.side == side
            && self.can_target_cell(m, row, column)
    }

    /// How many units among the first `n` grid cells qualify per
    /// [`Game::qualifying_attacker`].
    pub open spec fn count_targeting_upto(
        self,
        skill: MachineSkill,
        side: Player,
        row: int,
        column: int,
        n: nat,
    ) -> int
        decreases n,
    {
        if n == 0 {
            0
        } else {
            self.count_targeting_upto(skill, side, row, column, (n - 1) as nat) + if self
                .qualifying_attacker(n - 1, skill, side, row, column) {
                1int
            } else {
                0int
            }
        }
    }

    /// How many units of the given skill and side can currently target the
    /// cell `(row, column)`.
    pub open spec fn count_able_to_target_spec(
        self,
        skill: MachineSkill,
        side: Player,
        row: int,
        column: int,
    ) -> int {
        self.count_targeting_upto(skill, side, row, column, 64)
    }

    /// How many units of the given skill and side can currently target the
    /// cell of `target`. Used by the combat-power calculation for the
    /// Empower and Blind skills, and exposed for driver annotation. Every
    /// qualifying unit on the board contributes one.
    pub fn count_machines_with_skill_able_to_attack_target_machine(
        &self,
        target: &GameMachine,
        attacking_machine_skill: MachineSkill,
        attacking_side: Player,
    ) -> (count: i32)
        requires
            self.wf(),
        ensures
            count == self.count_able_to_target_spec(
                attacking_machine_skill,
                attacking_side,
                target.row as int,
                target.column as int,
            ),
            0 <= count <= 64,
    {
        let mut count: i32 = 0;
        let mut i: usize = 0;
        while i < 64
            invariant
                self.wf(),
                i <= 64,
                0 <= count <= i,
                count == self.count_targeting_upto(
                    attacking_machine_skill,
                    attacking_side,
                    target.row as int,
                    target.column as int,
                    i as nat,
                ),
            decreases 64 - i,
        {
            match self.machines[i] {
                Some(m) => {
                    if m.machine.skill == attacking_machine_skill && m.side == attacking_side {
                        let attacks = calculate_attacks(self, &m);
                        if any_attack_targets(&attacks, target.row, target.column) {
                            count = count + 1;
                        }
                    }
                },
                None => {},
            }
            i = i + 1;
        }
        count
    }

    /// Relocate whatever the source cell holds to the destination cell,
    /// clearing the source and updating the moved unit's coordinates. No
    /// validation: callers check occupancy and bounds first.
    fn unsafe_move_machine(
        &mut self,
        source_row: usize,
        source_column: usize,
        destination_row: usize,
        destination_column: usize,
    )
        requires
            old(self).machines@.len() == 64,
            source_row < 8,
            source_column < 8,
            destination_row < 8,
            destination_column < 8,
        ensures
            final(self).machines@ == ({
                let src = cell(source_row as int, source_column as int);
                let dst = cell(destination_row as int, destination_column as int);
                match old(self).machines@[src] {
                    Some(u) => old(self).machines@.update(src, None).update(
                        dst,
                        Some(
                            GameMachine { row: destination_row, column: destination_column, ..u },
                        ),
                    ),
                    None => old(self).machines@.update(src, None).update(dst, None),
                }
            }),
            final(self).board == old(self).board,
            final(self).turn == old(self).turn,
    {
        let src = cell_index(source_row, source_column);
        let taken = self.machines[src];
        self.machines.set(src, None);
        let dst = cell_index(destination_row, destination_column);
        match taken {
            Some(u) => {
                let moved = GameMachine {
                    row: destination_row,
                    column: destination_column,
                    ..u
                };
                self.machines.set(dst, Some(moved));
            },
            None => {
                self.machines.set(dst, None);
            },
        }
    }

    /// Apply a chosen move: the unit at the move's source cell relocates to
    /// its destination cell, and its state becomes Sprinted or Moved. Fails
    /// with OutOfRange on coordinates off the board and with
    /// InvalidReference when the source cell holds no unit; a failed move
    /// changes nothing.
    pub fn make_move(&mut self, m: &Move) -> (r: Result<(), EngineError>)
        requires
            old(self).wf(),
        ensures
            r == make_move_check_spec(*old(self), *m),
            r is Ok ==> final(self).machines@ == machines_after_move_spec(*old(self), *m),
            r is Err ==> *final(self) == *old(self),
            final(self).board == old(self).board,
            final(self).turn == old(self).turn,
            final(self).wf(),
    {
        if m.source_row > 7 || m.source_column > 7 || m.destination_row > 7 || m.destination_column
            > 7 {
            return Err(EngineError::OutOfRange);
        }
        let src = cell_index(m.source_row, m.source_column);
        let unit = match self.machines[src] {
            Some(u) => u,
            None => {
                return Err(EngineError::InvalidReference);
            },
        };
        let state = if m.requires_sprint {
            MachineState::Sprinted
        } else {
            MachineState::Moved
        };
        self.machines.set(src, Some(GameMachine { machine_state: state, ..unit }));
        self.unsafe_move_machine(
            m.source_row,
            m.source_column,
            m.destination_row,
            m.destination_column,
        );
        proof {
            assert(self.machines@ =~= machines_after_move_spec(*old(self), *m));
        }
        Ok(())
    }

    /// Resolve a chosen attack: compute both combat powers, apply the power
    /// difference as damage to the defender, and apply the attacker class's
    /// secondary effect. Fails, without changing anything, per
    /// [`make_attack_check_spec`]: coordinates off the board, an empty
    /// source or target cell, a Dash attacker, a defense break, or a pull
    /// or push destination off the board.
    #[verifier::rlimit(100)]
    pub fn make_attack(&mut self, attack: &Attack) -> (r: Result<(), EngineError>)
        requires
            old(self).wf(),
        ensures
            r == make_attack_check_spec(*old(self), *attack),
            r is Ok ==> final(self).machines@ == machines_after_attack_spec(*old(self), *attack),
            r is Err ==> *final(self) == *old(self),
            final(self).board == old(self).board,
            final(self).turn == old(self).turn,
            final(self).wf(),
    {
        if attack.source_row > 7 || attack.source_column > 7 || attack.machine_row > 7
            || attack.machine_column > 7 {
            return Err(EngineError::OutOfRange);
        }
        let src = cell_index(attack.source_row, attack.source_column);
        let tgt = cell_index(attack.machine_row, attack.machine_column);
        let attacker = match self.machines[src] {
            Some(a) => a,
            None => {
                return Err(EngineError::InvalidReference);
            },
        };
        if attacker.machine.machine_type == MachineType::Dash {
            return Err(EngineError::DashUnresolved);
        }
        let defender = match self.machines[tgt] {
            Some(d) => d,
            None => {
                return Err(EngineError::InvalidReference);
            },
        };
        let attacker_combat_power = calculate_combat_power(&*self, &attacker, attack);
        let defender_combat_power = calculate_combat_power(&*self, &defender, attack);
        if attacker_combat_power <= defender_combat_power {
            return Err(EngineError::DefenseBreakUnresolved);
        }
        let damage = attacker_combat_power - defender_combat_power;
        match attacker.machine.machine_type {
            MachineType::Gunner | MachineType::Melee | MachineType::Swoop => {
                let def2 = GameMachine { health: apply_damage(defender.health, damage), ..defender };
                self.machines.set(tgt, Some(def2));
                let att2 = GameMachine { machine_state: MachineState::Attacked, ..attacker };
                self.machines.set(src, Some(att2));
                Ok(())
            },
            MachineType::Pull => {
                let pulled_to = step_cell(
                    attack.attack_direction_from_source.reverse(),
                    attack.machine_row,
                    attack.machine_column,
                );
                match pulled_to {
                    Some(p) => {
                        let pidx = cell_index(p.0, p.1);
                        match self.machines[pidx] {
                            Some(occ) => {
                                let def2 = GameMachine {
                                    health: apply_damage(apply_damage(defender.health, damage), 1),
                                    ..defender
                                };
                                self.machines.set(tgt, Some(def2));
                                let occ2 = GameMachine {
                                    health: apply_damage(occ.health, 1),
                                    ..occ
                                };
                                self.machines.set(pidx, Some(occ2));
                                Ok(())
                            },
                            None => {
                                let def2 = GameMachine {
                                    health: apply_damage(defender.health, damage),
                                    ..defender
                                };
                                self.machines.set(tgt, Some(def2));
                                self.unsafe_move_machine(
                                    attack.machine_row,
                                    attack.machine_column,
                                    p.0,
                                    p.1,
                                );
                                proof {
                                    assert(self.machines@ =~= machines_after_attack_spec(
                                        *old(self),
                                        *attack,
                                    ));
                                }
                                Ok(())
                            },
                        }
                    },
                    None => Err(EngineError::OutOfRange),
                }
            },
            MachineType::Ram => {
                let pushed_to = step_cell(
                    attack.attack_direction_from_source,
                    attack.machine_row,
                    attack.machine_column,
                );
                let fallback = step_cell(
                    attack.attack_direction_from_source.reverse(),
                    attack.machine_row,
                    attack.machine_column,
                );
                match (pushed_to, fallback) {
                    (Some(p), Some(f)) => {
                        let pidx = cell_index(p.0, p.1);
                        match self.machines[pidx] {
                            Some(occ) => {
                                let def2 = GameMachine {
                                    health: apply_damage(apply_damage(defender.health, damage), 1),
                                    ..defender
                                };
                                self.machines.set(tgt, Some(def2));
                                let occ2 = GameMachine {
                                    health: apply_damage(occ.health, 1),
                                    ..occ
                                };
                                self.machines.set(pidx, Some(occ2));
                                self.unsafe_move_machine(
                                    attack.source_row,
                                    attack.source_column,
                                    f.0,
                                    f.1,
                                );
                                Ok(())
                            },
                            None => {
                                let def2 = GameMachine {
                                    health: apply_damage(defender.health, damage),
                                    ..defender
                                };
                                self.machines.set(tgt, Some(def2));
                                self.unsafe_move_machine(
                                    attack.machine_row,
                                    attack.machine_column,
                                    p.0,
                                    p.1,
                                );
                                proof {
                                    assert(self.machines@ =~= machines_after_attack_spec(
                                        *old(self),
                                        *attack,
                                    ));
                                }
                                Ok(())
                            },
                        }
                    },
                    _ => Err(EngineError::OutOfRange),
                }
            },
            MachineType::Dash => Err(EngineError::DashUnresolved),
        }
    }
}

} // verus!
