use vstd::prelude::*;

use crate::commands::GameCommand;
use crate::game_state::GameStateCache;
use crate::units::Unit;
use crate::world::{commands_effect, movement_effect};
use crate::{after_commands, after_pass, has_reset, with_elapsed, EngineState, GameLogic};

verus! {

/// How many commands may wait for the simulation at once.
pub const COMMAND_QUEUE_CAPACITY: usize = 1000;

/// The intended length of one tick iteration, in microseconds.
pub const TICK_INTERVAL_MICROS: u64 = 1000000;

/// The engine after one iteration's simulation work: take the drained batch, then run the
/// pipeline once.
pub open spec fn iteration_effect(s: EngineState, cmds: Seq<GameCommand>) -> EngineState {
    after_pass(after_commands(s, cmds))
}

/// The engine after idle iterations, one per measured duration: no commands arrive, the
/// pipeline runs, and the duration is recorded for the next pass.
pub open spec fn idle_run(s: EngineState, durations: Seq<nat>) -> EngineState
    decreases durations.len(),
{
    if durations.len() == 0 {
        s
    } else {
        with_elapsed(
            iteration_effect(idle_run(s, durations.drop_last()), Seq::empty()),
            durations.last(),
        )
    }
}

/// The simulation work of one tick iteration: apply the drained batch, run the pipeline
/// once, and return the picture of the world that results.
pub fn run_iteration(logic: &mut GameLogic, commands: Vec<GameCommand>) -> (r: GameStateCache)
    requires
        old(logic).wf(),
        old(logic)@.ticks < u64::MAX,
    ensures
        final(logic).wf(),
        final(logic)@ == iteration_effect(old(logic)@, commands@),
        r@ == final(logic)@.units,
{
    logic.handle_commands(commands);
    logic.execute();
    logic.generate_game_state_cache()
}

/// What the tick loop does once an iteration's work is done.
#[derive(Clone, Copy, Debug, PartialEq, Eq, Structural)]
pub enum Pace {
    /// Leave the loop.
    Stop,
    /// Sleep this long, then record the iteration's length and start the next one.
    Continue { sleep_micros: u64 },
}

/// Decides how the loop goes on: stop when asked to; otherwise sleep for what is left of
/// the target interval, or not at all when the iteration ran over (no catching up).
pub fn pace(shutdown: bool, elapsed_micros: u64, target_micros: u64) -> (r: Pace)
    ensures
        shutdown ==> r == Pace::Stop,
        !shutdown && elapsed_micros < target_micros ==> r == (Pace::Continue {
            sleep_micros: (target_micros - elapsed_micros) as u64,
        }),
        !shutdown && elapsed_micros >= target_micros ==> r == (Pace::Continue {
            sleep_micros: 0,
        }),
{
    if shutdown {
        Pace::Stop
    } else if elapsed_micros < target_micros {
        Pace::Continue { sleep_micros: target_micros - elapsed_micros }
    } else {
        Pace::Continue { sleep_micros: 0 }
    }
}

/// Iterations that take no commands raise the tick count by exactly one each.
pub proof fn lemma_idle_ticks(s: EngineState, durations: Seq<nat>)
    ensures
        idle_run(s, durations).ticks == s.ticks + durations.len(),
    decreases durations.len(),
{
    if durations.len() > 0 {
        lemma_idle_ticks(s, durations.drop_last());
    }
}

/// After a batch that holds a reset, the next picture of the world has no units, whatever
/// unit commands the batch carried.
pub proof fn lemma_reset_empties_world(s: EngineState, cmds: Seq<GameCommand>)
    requires
        has_reset(cmds),
    ensures
        iteration_effect(s, cmds).units == Map::<u64, Unit>::empty(),
{
    let t = after_commands(s, cmds);
    assert(t.pending =~= Seq::<crate::commands::UnitCommand>::empty());
    assert(commands_effect(t.units, t.pending) == t.units);
    assert(movement_effect(t.units) =~= Map::<u64, Unit>::empty());
}

/// The elapsed time recorded before a pass is what the clock holds during and after it, and
/// recording it changes nothing else the pass does.
pub proof fn lemma_elapsed_reaches_pass(s: EngineState, elapsed_micros: nat)
    ensures
        with_elapsed(s, elapsed_micros).elapsed_micros == elapsed_micros,
        after_pass(with_elapsed(s, elapsed_micros)) == with_elapsed(after_pass(s), elapsed_micros),
{
}

} // verus!
