use std::collections::HashMap;

use vstd::prelude::*;

use crate::commands::UnitCommand;
use crate::units::{move_unit, moved, Unit};

verus! {

broadcast use vstd::std_specs::hash::group_hash_axioms;

/// The units of a sequence keyed by id; a later unit wins over an earlier one with the same id.
pub open spec fn unit_map(s: Seq<Unit>) -> Map<u64, Unit>
    decreases s.len(),
{
    if s.len() == 0 {
        Map::empty()
    } else {
        unit_map(s.drop_last()).insert(s.last().id, s.last())
    }
}

/// No two units of the sequence share an id.
pub open spec fn ids_unique(s: Seq<Unit>) -> bool {
    forall|i: int, j: int| 0 <= i < j < s.len() ==> s[i].id != s[j].id
}

/// What one unit command does to the world.
pub open spec fn command_effect(m: Map<u64, Unit>, c: UnitCommand) -> Map<u64, Unit> {
    match c {
        UnitCommand::Spawn(u) => m.insert(u.id, u),
        UnitCommand::MoveTo { id, destination } => if m.contains_key(id) {
            m.insert(id, Unit { id: m[id].id, position: m[id].position, destination })
        } else {
            m
        },
    }
}

/// What a sequence of unit commands does to the world, applied in order.
pub open spec fn commands_effect(m: Map<u64, Unit>, cs: Seq<UnitCommand>) -> Map<u64, Unit>
    decreases cs.len(),
{
    if cs.len() == 0 {
        m
    } else {
        command_effect(commands_effect(m, cs.drop_last()), cs.last())
    }
}

/// The world after every unit took one movement step.
pub open spec fn movement_effect(m: Map<u64, Unit>) -> Map<u64, Unit> {
    m.map_values(|u: Unit| moved(u))
}

proof fn lemma_absent(s: Seq<Unit>, k: u64)
    requires
        forall|j: int| 0 <= j < s.len() ==> s[j].id != k,
    ensures
        !unit_map(s).contains_key(k),
    decreases s.len(),
{
    if s.len() > 0 {
        lemma_absent(s.drop_last(), k);
    }
}

proof fn lemma_update(s: Seq<Unit>, i: int, u: Unit)
    requires
        ids_unique(s),
        0 <= i < s.len(),
        s[i].id == u.id,
    ensures
        unit_map(s.update(i, u)) == unit_map(s).insert(u.id, u),
    decreases s.len(),
{
    let t = s.update(i, u);
    if i == s.len() - 1 {
        assert(t.drop_last() =~= s.drop_last());
        assert(unit_map(t) =~= unit_map(s).insert(u.id, u));
    } else {
        assert(t.drop_last() =~= s.drop_last().update(i, u));
        lemma_update(s.drop_last(), i, u);
        assert(s.last().id != u.id);
        assert(unit_map(t) =~= unit_map(s).insert(u.id, u));
    }
}

proof fn lemma_lookup(s: Seq<Unit>, i: int)
    requires
        ids_unique(s),
        0 <= i < s.len(),
    ensures
        unit_map(s).contains_key(s[i].id),
        unit_map(s)[s[i].id] == s[i],
{
    lemma_update(s, i, s[i]);
    assert(s.update(i, s[i]) =~= s);
}

proof fn lemma_push(s: Seq<Unit>, u: Unit)
    ensures
        unit_map(s.push(u)) == unit_map(s).insert(u.id, u),
{
    assert(s.push(u).drop_last() =~= s);
}

proof fn lemma_moved_all(s: Seq<Unit>)
    ensures
        unit_map(s.map_values(|u: Unit| moved(u))) == movement_effect(unit_map(s)),
    decreases s.len(),
{
    let t = s.map_values(|u: Unit| moved(u));
    if s.len() == 0 {
        assert(unit_map(t) =~= movement_effect(unit_map(s)));
    } else {
        assert(t.drop_last() =~= s.drop_last().map_values(|u: Unit| moved(u)));
        lemma_moved_all(s.drop_last());
        assert(unit_map(t) =~= movement_effect(unit_map(s)));
    }
}

/// The entity store of the simulation: the units that exist, each id at most once.
pub struct World {
    units: Vec<Unit>,
}

impl View for World {
    type V = Map<u64, Unit>;

    closed spec fn view(&self) -> Map<u64, Unit> {
        unit_map(self.units@)
    }
}

impl World {
    /// The store holds each id at most once.
    pub closed spec fn wf(&self) -> bool {
        ids_unique(self.units@)
    }

    /// An empty world.
    pub fn new() -> (r: World)
        ensures
            r.wf(),
            r@ == Map::<u64, Unit>::empty(),
    {
        World { units: Vec::new() }
    }

    fn find(&self, id: u64) -> (r: Option<usize>)
        ensures
            match r {
                Some(i) => i < self.units.len() && self.units@[i as int].id == id,
                None => forall|j: int| 0 <= j < self.units.len() ==> self.units@[j].id != id,
            },
    {
        let mut i: usize = 0;
        while i < self.units.len()
            invariant
                i <= self.units.len(),
                forall|j: int| 0 <= j < i ==> self.units@[j].id != id,
            decreases self.units.len() - i,
        {
            if self.units[i].id == id {
                return Some(i);
            }
            i = i + 1;
        }
        None
    }

    /// Carries out one unit command.
    pub fn apply_command(&mut self, c: UnitCommand)
        requires
            old(self).wf(),
        ensures
            final(self).wf(),
            final(self)@ == command_effect(old(self)@, c),
    {
        match c {
            UnitCommand::Spawn(u) => {
                match self.find(u.id) {
                    Some(i) => {
                        proof {
                            lemma_update(self.units@, i as int, u);
                        }
                        self.units.set(i, u);
                    },
                    None => {
                        proof {
                            lemma_push(self.units@, u);
                        }
                        self.units.push(u);
                    },
                }
            },
            UnitCommand::MoveTo { id, destination } => {
                match self.find(id) {
                    Some(i) => {
                        let old_unit = self.units[i];
                        let u = Unit { id: old_unit.id, position: old_unit.position, destination };
                        proof {
                            lemma_lookup(self.units@, i as int);
                            lemma_update(self.units@, i as int, u);
                        }
                        self.units.set(i, u);
                    },
                    None => {
                        proof {
                            lemma_absent(self.units@, id);
                        }
                    },
                }
            },
        }
    }

    /// Carries out unit commands in the order given.
    pub fn apply_commands(&mut self, cs: &Vec<UnitCommand>)
        requires
            old(self).wf(),
        ensures
            final(self).wf(),
            final(self)@ == commands_effect(old(self)@, cs@),
    {
        let ghost m0 = self@;
        let mut i: usize = 0;
        while i < cs.len()
            invariant
                i <= cs.len(),
                self.wf(),
                self@ == commands_effect(m0, cs@.take(i as int)),
            decreases cs.len() - i,
        {
            self.apply_command(cs[i]);
            proof {
                assert(cs@.take(i + 1).drop_last() =~= cs@.take(i as int));
            }
            i = i + 1;
        }
        assert(cs@.take(cs.len() as int) =~= cs@);
    }

    /// Moves every unit one step toward its destination.
    pub fn move_units(&mut self)
        requires
            old(self).wf(),
        ensures
            final(self).wf(),
            final(self)@ == movement_effect(old(self)@),
    {
        let ghost s0 = self.units@;
        let n = self.units.len();
        let mut i: usize = 0;
        while i < n
            invariant
                n == self.units.len(),
                n == s0.len(),
                i <= n,
                forall|j: int| 0 <= j < i ==> self.units@[j] == moved(s0[j]),
                forall|j: int| i <= j < n ==> self.units@[j] == s0[j],
            decreases n - i,
        {
            let u = move_unit(&self.units[i]);
            self.units.set(i, u);
            i = i + 1;
        }
        proof {
            assert(self.units@ =~= s0.map_values(|u: Unit| moved(u)));
            lemma_moved_all(s0);
        }
    }

    /// The units keyed by id, in a map of their own.
    pub fn unit_table(&self) -> (r: HashMap<u64, Unit>)
        ensures
            r@ == self@,
    {
        let mut m: HashMap<u64, Unit> = HashMap::new();
        let mut i: usize = 0;
        while i < self.units.len()
            invariant
                i <= self.units.len(),
                m@ == unit_map(self.units@.take(i as int)),
            decreases self.units.len() - i,
        {
            let u = self.units[i];
            m.insert(u.id, u);
            proof {
                assert(self.units@.take(i + 1).drop_last() =~= self.units@.take(i as int));
            }
            i = i + 1;
        }
        assert(self.units@.take(self.units.len() as int) =~= self.units@);
        m
    }
}

} // verus!
