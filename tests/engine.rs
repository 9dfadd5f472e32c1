use game_logic::commands::{GameCommand, UnitCommand};
use game_logic::units::{move_unit, Position, Unit};
use game_logic::GameLogic;

fn unit(id: u64, x: i64, y: i64, dx: i64, dy: i64) -> Unit {
    Unit { id, position: Position { x, y }, destination: Position { x: dx, y: dy } }
}

fn spawn(u: Unit) -> GameCommand {
    GameCommand::Mutate(UnitCommand::Spawn(u))
}

#[test]
fn new_engine_is_empty() {
    let g = GameLogic::new();
    assert_eq!(g.ticks(), 0);
    assert_eq!(g.elapsed_micros(), 0);
    assert!(g.generate_game_state_cache().units.is_empty());
    let d = GameLogic::default();
    assert_eq!(d.ticks(), 0);
}

#[test]
fn execute_counts_ticks() {
    let mut g = GameLogic::new();
    for _ in 0..5 {
        g.execute();
    }
    assert_eq!(g.ticks(), 5);
}

#[test]
fn spawned_unit_appears_after_pass() {
    let mut g = GameLogic::new();
    g.handle_commands(vec![spawn(unit(1, 5, 5, 5, 5))]);
    assert!(g.generate_game_state_cache().units.is_empty());
    g.execute();
    let snap = g.generate_game_state_cache();
    assert_eq!(snap.units.len(), 1);
    assert_eq!(snap.units[&1], unit(1, 5, 5, 5, 5));
}

#[test]
fn units_step_toward_destination() {
    let mut g = GameLogic::new();
    g.handle_commands(vec![spawn(unit(3, 0, 10, 2, 7))]);
    g.execute();
    assert_eq!(g.generate_game_state_cache().units[&3].position, Position { x: 1, y: 9 });
    g.execute();
    assert_eq!(g.generate_game_state_cache().units[&3].position, Position { x: 2, y: 8 });
    g.execute();
    assert_eq!(g.generate_game_state_cache().units[&3].position, Position { x: 2, y: 7 });
    g.execute();
    assert_eq!(g.generate_game_state_cache().units[&3].position, Position { x: 2, y: 7 });
}

#[test]
fn move_unit_exact_values() {
    let u = move_unit(&unit(9, -4, 4, 0, 0));
    assert_eq!(u, unit(9, -3, 3, 0, 0));
    let extreme = move_unit(&unit(1, i64::MAX - 1, i64::MIN + 1, i64::MAX, i64::MIN));
    assert_eq!(extreme.position, Position { x: i64::MAX, y: i64::MIN });
}

#[test]
fn move_to_sets_destination() {
    let mut g = GameLogic::new();
    g.handle_commands(vec![
        spawn(unit(2, 0, 0, 0, 0)),
        GameCommand::Mutate(UnitCommand::MoveTo { id: 2, destination: Position { x: 3, y: -3 } }),
        GameCommand::Mutate(UnitCommand::MoveTo { id: 99, destination: Position { x: 1, y: 1 } }),
    ]);
    g.execute();
    let snap = g.generate_game_state_cache();
    assert_eq!(snap.units.len(), 1);
    assert_eq!(snap.units[&2], unit(2, 1, -1, 3, -3));
}

#[test]
fn spawn_with_same_id_replaces() {
    let mut g = GameLogic::new();
    g.handle_commands(vec![spawn(unit(4, 0, 0, 0, 0)), spawn(unit(4, 8, 8, 8, 8))]);
    g.execute();
    let snap = g.generate_game_state_cache();
    assert_eq!(snap.units.len(), 1);
    assert_eq!(snap.units[&4], unit(4, 8, 8, 8, 8));
}

#[test]
fn reset_discards_whole_batch() {
    let mut g = GameLogic::new();
    g.handle_commands(vec![spawn(unit(1, 0, 0, 0, 0))]);
    g.execute();
    assert_eq!(g.generate_game_state_cache().units.len(), 1);
    g.handle_commands(vec![
        spawn(unit(2, 1, 1, 1, 1)),
        GameCommand::Reset,
        spawn(unit(3, 2, 2, 2, 2)),
    ]);
    g.execute();
    assert!(g.generate_game_state_cache().units.is_empty());
    assert_eq!(g.ticks(), 2);
}

#[test]
fn reset_discards_earlier_staged_commands() {
    let mut g = GameLogic::new();
    g.handle_commands(vec![spawn(unit(1, 0, 0, 0, 0))]);
    g.handle_commands(vec![GameCommand::Reset]);
    g.execute();
    assert!(g.generate_game_state_cache().units.is_empty());
}

#[test]
fn batches_without_reset_accumulate() {
    let mut g = GameLogic::new();
    g.handle_commands(vec![spawn(unit(1, 0, 0, 0, 0))]);
    g.handle_commands(vec![spawn(unit(2, 0, 0, 0, 0))]);
    g.execute();
    assert_eq!(g.generate_game_state_cache().units.len(), 2);
}

#[test]
fn elapsed_survives_pass() {
    let mut g = GameLogic::new();
    g.set_elapsed_seconds(1_250_000);
    g.execute();
    assert_eq!(g.elapsed_micros(), 1_250_000);
    assert_eq!(g.ticks(), 1);
    g.set_elapsed_seconds(0);
    assert_eq!(g.elapsed_micros(), 0);
    assert_eq!(g.ticks(), 1);
}

#[test]
fn snapshot_leaves_engine_unchanged() {
    let mut g = GameLogic::new();
    g.handle_commands(vec![spawn(unit(5, 0, 0, 4, 0))]);
    g.execute();
    let a = g.generate_game_state_cache();
    let b = g.generate_game_state_cache();
    assert_eq!(a.units, b.units);
    assert_eq!(g.ticks(), 1);
}
