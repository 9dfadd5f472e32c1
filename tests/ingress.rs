use game_logic::commands::{GameCommand, UnitCommand};
use game_logic::driver::COMMAND_QUEUE_CAPACITY;
use game_logic::queue::{Backpressure, CommandQueue};
use game_logic::units::{Position, Unit};

fn numbered(i: u64) -> GameCommand {
    GameCommand::Mutate(UnitCommand::MoveTo { id: i, destination: Position { x: 0, y: 0 } })
}

#[test]
fn fill_to_capacity_then_drain_in_order() {
    let mut q = CommandQueue::new(COMMAND_QUEUE_CAPACITY);
    assert_eq!(q.capacity(), 1000);
    for i in 0..1000u64 {
        assert_eq!(q.try_send(numbered(i)), Ok(()));
    }
    assert_eq!(q.len(), 1000);
    let extra = GameCommand::Reset;
    assert_eq!(q.try_send(extra), Err(Backpressure { rejected: extra }));
    let drained = q.drain_available();
    assert_eq!(drained.len(), 1000);
    for (i, c) in drained.iter().enumerate() {
        assert_eq!(*c, numbered(i as u64));
    }
    assert_eq!(q.len(), 0);
    assert_eq!(q.try_send(extra), Ok(()));
}

#[test]
fn drain_of_empty_queue_is_empty() {
    let mut q = CommandQueue::new(4);
    assert!(q.drain_available().is_empty());
    assert!(q.drain_available().is_empty());
}

#[test]
fn zero_capacity_rejects_everything() {
    let mut q = CommandQueue::new(0);
    let c = GameCommand::Mutate(UnitCommand::Spawn(Unit {
        id: 1,
        position: Position { x: 0, y: 0 },
        destination: Position { x: 0, y: 0 },
    }));
    assert_eq!(q.try_send(c), Err(Backpressure { rejected: c }));
    assert_eq!(q.len(), 0);
}
