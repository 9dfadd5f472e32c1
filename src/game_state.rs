use std::collections::HashMap;

use vstd::prelude::*;

use crate::units::Unit;

verus! {

broadcast use vstd::std_specs::hash::group_hash_axioms;

/// A read-only picture of the world at the end of a tick: every unit keyed by its id.
pub struct GameStateCache {
    pub units: HashMap<u64, Unit>,
}

impl View for GameStateCache {
    type V = Map<u64, Unit>;

    open spec fn view(&self) -> Map<u64, Unit> {
        self.units@
    }
}

impl GameStateCache {
    /// A picture with no units.
    pub fn new() -> (r: GameStateCache)
        ensures
            r@ == Map::<u64, Unit>::empty(),
    {
        GameStateCache { units: HashMap::new() }
    }

    /// An independent copy of the picture.
    pub fn duplicate(&self) -> (r: GameStateCache)
        ensures
            r@ == self@,
    {
        GameStateCache { units: self.units.clone() }
    }
}

/// Holder of the latest published picture; one writer replaces it, readers copy it.
pub struct SnapshotStore {
    latest: GameStateCache,
}

impl View for SnapshotStore {
    type V = Map<u64, Unit>;

    closed spec fn view(&self) -> Map<u64, Unit> {
        self.latest@
    }
}

impl SnapshotStore {
    /// A store holding the empty picture.
    pub fn new() -> (r: SnapshotStore)
        ensures
            r@ == Map::<u64, Unit>::empty(),
    {
        SnapshotStore { latest: GameStateCache::new() }
    }

    /// Replaces the stored picture wholesale.
    pub fn publish(&mut self, snapshot: GameStateCache)
        ensures
            final(self)@ == snapshot@,
    {
        self.latest = snapshot;
    }

    /// A copy of the most recently published picture.
    pub fn read(&self) -> (r: GameStateCache)
        ensures
            r@ == self@,
    {
        self.latest.duplicate()
    }
}

} // verus!
