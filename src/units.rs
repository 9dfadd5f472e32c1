use vstd::prelude::*;

verus! {

/// A point on the simulation grid.
#[derive(Clone, Copy, Debug, PartialEq, Eq, Structural)]
pub struct Position {
    pub x: i64,
    pub y: i64,
}

/// One unit of the world: its identifier, where it stands and where it heads.
#[derive(Clone, Copy, Debug, PartialEq, Eq, Structural)]
pub struct Unit {
    pub id: u64,
    pub position: Position,
    pub destination: Position,
}

/// One coordinate moved a single cell toward its target, or left alone on it.
pub open spec fn step_toward(from: i64, to: i64) -> i64 {
    if from < to {
        (from + 1) as i64
    } else if from > to {
        (from - 1) as i64
    } else {
        from
    }
}

/// A unit after one movement step: each coordinate one cell closer to the destination.
pub open spec fn moved(u: Unit) -> Unit {
    Unit {
        id: u.id,
        position: Position {
            x: step_toward(u.position.x, u.destination.x),
            y: step_toward(u.position.y, u.destination.y),
        },
        destination: u.destination,
    }
}

fn coordinate_step(from: i64, to: i64) -> (r: i64)
    ensures
        r == step_toward(from, to),
{
    if from < to {
        from + 1
    } else if from > to {
        from - 1
    } else {
        from
    }
}

/// Moves a unit one cell toward its destination on each axis.
pub fn move_unit(u: &Unit) -> (r: Unit)
    ensures
        r == moved(*u),
{
    Unit {
        id: u.id,
        position: Position {
            x: coordinate_step(u.position.x, u.destination.x),
            y: coordinate_step(u.position.y, u.destination.y),
        },
        destination: u.destination,
    }
}

} // verus!
