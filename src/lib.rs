use vstd::prelude::*;

pub mod commands;
pub mod driver;
pub mod game_state;
pub mod queue;
pub mod resources;
pub mod units;
pub mod world;

use crate::commands::{GameCommand, UnitCommand};
use crate::game_state::GameStateCache;
use crate::resources::TimeResource;
use crate::units::Unit;
use crate::world::{commands_effect, movement_effect, World};

verus! {

/// The engine seen as plain values: the units, the unit commands staged for the next pass,
/// and the clock.
pub struct EngineState {
    pub units: Map<u64, Unit>,
    pub pending: Seq<UnitCommand>,
    pub ticks: nat,
    pub elapsed_micros: nat,
}

/// The batch holds a reset somewhere.
pub open spec fn has_reset(cmds: Seq<GameCommand>) -> bool {
    exists|i: int| 0 <= i < cmds.len() && cmds[i] == GameCommand::Reset
}

/// The unit commands of a batch, in arrival order.
pub open spec fn mutations(cmds: Seq<GameCommand>) -> Seq<UnitCommand>
    decreases cmds.len(),
{
    if cmds.len() == 0 {
        Seq::empty()
    } else {
        match cmds.last() {
            GameCommand::Reset => mutations(cmds.drop_last()),
            GameCommand::Mutate(c) => mutations(cmds.drop_last()).push(c),
        }
    }
}

/// The engine after taking a batch: a reset anywhere in it discards the world, everything
/// staged and every unit command of the batch; otherwise the unit commands are staged behind
/// those already waiting. The clock is untouched either way.
pub open spec fn after_commands(s: EngineState, cmds: Seq<GameCommand>) -> EngineState {
    if has_reset(cmds) {
        EngineState {
            units: Map::empty(),
            pending: Seq::empty(),
            ticks: s.ticks,
            elapsed_micros: s.elapsed_micros,
        }
    } else {
        EngineState {
            units: s.units,
            pending: s.pending + mutations(cmds),
            ticks: s.ticks,
            elapsed_micros: s.elapsed_micros,
        }
    }
}

/// The engine after one pipeline pass: the staged unit commands are carried out in order,
/// then every unit takes one movement step, and the tick count goes up by one.
pub open spec fn after_pass(s: EngineState) -> EngineState {
    EngineState {
        units: movement_effect(commands_effect(s.units, s.pending)),
        pending: Seq::empty(),
        ticks: s.ticks + 1,
        elapsed_micros: s.elapsed_micros,
    }
}

/// The engine with the measured length of the last iteration recorded.
pub open spec fn with_elapsed(s: EngineState, elapsed_micros: nat) -> EngineState {
    EngineState {
        units: s.units,
        pending: s.pending,
        ticks: s.ticks,
        elapsed_micros,
    }
}

/// The simulation engine: world, staged unit commands and clock, owned by one thread.
pub struct GameLogic {
    world: World,
    pending: Vec<UnitCommand>,
    time: TimeResource,
}

impl View for GameLogic {
    type V = EngineState;

    closed spec fn view(&self) -> EngineState {
        EngineState {
            units: self.world@,
            pending: self.pending@,
            ticks: self.time.ticks as nat,
            elapsed_micros: self.time.elapsed_micros as nat,
        }
    }
}

impl Default for GameLogic {
    fn default() -> (r: GameLogic)
        ensures
            r.wf(),
            r@.units == Map::<u64, Unit>::empty(),
            r@.pending == Seq::<UnitCommand>::empty(),
            r@.ticks == 0,
            r@.elapsed_micros == 0,
    {
        GameLogic::new()
    }
}

impl GameLogic {
    /// The world store is consistent.
    pub closed spec fn wf(&self) -> bool {
        self.world.wf()
    }

    /// An engine with an empty world, nothing staged and a clock at zero.
    pub fn new() -> (r: GameLogic)
        ensures
            r.wf(),
            r@.units == Map::<u64, Unit>::empty(),
            r@.pending == Seq::<UnitCommand>::empty(),
            r@.ticks == 0,
            r@.elapsed_micros == 0,
    {
        GameLogic { world: World::new(), pending: Vec::new(), time: TimeResource::new() }
    }

    /// Runs the pipeline once: the unit command system, then the movement system; then
    /// counts the tick.
    pub fn execute(&mut self)
        requires
            old(self).wf(),
            old(self)@.ticks < u64::MAX,
        ensures
            final(self).wf(),
            final(self)@ == after_pass(old(self)@),
    {
        self.world.apply_commands(&self.pending);
        self.world.move_units();
        self.pending = Vec::new();
        self.time.ticks = self.time.ticks + 1;
    }

    /// The units of the world keyed by id; the engine is left as it was.
    pub fn generate_game_state_cache(&self) -> (r: GameStateCache)
        ensures
            r@ == self@.units,
    {
        GameStateCache { units: self.world.unit_table() }
    }

    /// Records how long the last iteration took, in microseconds, for the next pass.
    pub fn set_elapsed_seconds(&mut self, elapsed_micros: u64)
        ensures
            final(self).wf() == old(self).wf(),
            final(self)@ == with_elapsed(old(self)@, elapsed_micros as nat),
    {
        self.time.elapsed_micros = elapsed_micros;
    }

    /// Takes a batch of commands in arrival order. A reset anywhere in the batch replaces
    /// the world with an empty one and discards every unit command staged so far, those of
    /// the batch included; otherwise the batch's unit commands are staged for the next pass.
    pub fn handle_commands(&mut self, commands: Vec<GameCommand>)
        requires
            old(self).wf(),
        ensures
            final(self).wf(),
            final(self)@ == after_commands(old(self)@, commands@),
    {
        let mut reset = false;
        let mut staged: Vec<UnitCommand> = Vec::new();
        let mut i: usize = 0;
        while i < commands.len()
            invariant
                i <= commands.len(),
                reset == has_reset(commands@.take(i as int)),
                staged@ == mutations(commands@.take(i as int)),
            decreases commands.len() - i,
        {
            let ghost prefix = commands@.take(i as int);
            let ghost next = commands@.take(i + 1);
            proof {
                assert(next.drop_last() =~= prefix);
                assert(next.last() == commands@[i as int]);
                if has_reset(prefix) {
                    let k = choose|k: int| 0 <= k < prefix.len() && prefix[k] == GameCommand::Reset;
                    assert(next[k] == GameCommand::Reset);
                }
            }
            match commands[i] {
                GameCommand::Reset => {
                    reset = true;
                    assert(next[i as int] == GameCommand::Reset);
                },
                GameCommand::Mutate(c) => {
                    staged.push(c);
                    assert forall|k: int| 0 <= k < next.len() implies next[k]
                        != GameCommand::Reset || has_reset(prefix) by {
                        if k < i {
                            assert(prefix[k] == next[k]);
                        }
                    }
                },
            }
            i = i + 1;
        }
        assert(commands@.take(commands.len() as int) =~= commands@);
        if reset {
            self.world = World::new();
            self.pending = Vec::new();
        } else {
            self.pending.append(&mut staged);
        }
    }

    /// Completed pipeline passes.
    pub fn ticks(&self) -> (r: u64)
        ensures
            r == self@.ticks,
    {
        self.time.ticks
    }

    /// The last recorded iteration length, in microseconds.
    pub fn elapsed_micros(&self) -> (r: u64)
        ensures
            r == self@.elapsed_micros,
    {
        self.time.elapsed_micros
    }
}

} // verus!
