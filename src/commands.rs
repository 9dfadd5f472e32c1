use vstd::prelude::*;

use crate::units::{Position, Unit};

verus! {

/// An instruction for the unit system, carried through the engine without interpretation.
#[derive(Clone, Copy, Debug, PartialEq, Eq, Structural)]
pub enum UnitCommand {
    /// Places a unit in the world, replacing any unit with the same id.
    Spawn(Unit),
    /// Gives an existing unit a new destination; ignored when no unit has that id.
    MoveTo { id: u64, destination: Position },
}

/// A request from a client to the simulation.
#[derive(Clone, Copy, Debug, PartialEq, Eq, Structural)]
pub enum GameCommand {
    /// Discards the whole world.
    Reset,
    /// Hands a command to the unit system.
    Mutate(UnitCommand),
}

} // verus!
