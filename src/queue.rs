use vstd::prelude::*;

use crate::commands::GameCommand;

verus! {

/// A command turned away because the queue was full; the caller gets it back.
#[derive(Clone, Copy, Debug, PartialEq, Eq, Structural)]
pub struct Backpressure {
    pub rejected: GameCommand,
}

/// The pending commands after offering `c` to a queue bounded by `bound`: appended if there
/// is room, else left as they were.
pub open spec fn offer(items: Seq<GameCommand>, bound: nat, c: GameCommand) -> Seq<GameCommand> {
    if items.len() < bound {
        items.push(c)
    } else {
        items
    }
}

/// The pending commands after offering each of `cs` in turn.
pub open spec fn offer_all(items: Seq<GameCommand>, bound: nat, cs: Seq<GameCommand>) -> Seq<
    GameCommand,
>
    decreases cs.len(),
{
    if cs.len() == 0 {
        items
    } else {
        offer(offer_all(items, bound, cs.drop_last()), bound, cs.last())
    }
}

/// Bounded first-in first-out conduit of commands into the simulation.
pub struct CommandQueue {
    items: Vec<GameCommand>,
    capacity: usize,
}

impl View for CommandQueue {
    type V = Seq<GameCommand>;

    closed spec fn view(&self) -> Seq<GameCommand> {
        self.items@
    }
}

impl CommandQueue {
    /// The most commands the queue holds at once.
    pub closed spec fn bound(&self) -> nat {
        self.capacity as nat
    }

    /// The queue never holds more than its bound.
    pub closed spec fn wf(&self) -> bool {
        self.items.len() <= self.capacity
    }

    /// An empty queue that holds at most `capacity` commands.
    pub fn new(capacity: usize) -> (r: CommandQueue)
        ensures
            r.wf(),
            r@ == Seq::<GameCommand>::empty(),
            r.bound() == capacity,
    {
        CommandQueue { items: Vec::new(), capacity }
    }

    /// The bound given at creation.
    pub fn capacity(&self) -> (r: usize)
        ensures
            r == self.bound(),
    {
        self.capacity
    }

    /// How many commands are pending.
    pub fn len(&self) -> (r: usize)
        ensures
            r == self@.len(),
    {
        self.items.len()
    }

    /// Appends `c` if there is room; otherwise hands it back as backpressure and changes nothing.
    pub fn try_send(&mut self, c: GameCommand) -> (r: Result<(), Backpressure>)
        requires
            old(self).wf(),
        ensures
            final(self).wf(),
            final(self).bound() == old(self).bound(),
            final(self)@ == offer(old(self)@, old(self).bound(), c),
            r is Ok <==> old(self)@.len() < old(self).bound(),
            r is Err ==> r == Err::<(), Backpressure>(Backpressure { rejected: c }),
    {
        if self.items.len() < self.capacity {
            self.items.push(c);
            Ok(())
        } else {
            Err(Backpressure { rejected: c })
        }
    }

    /// Takes every pending command, oldest first, leaving the queue empty.
    pub fn drain_available(&mut self) -> (r: Vec<GameCommand>)
        requires
            old(self).wf(),
        ensures
            final(self).wf(),
            final(self).bound() == old(self).bound(),
            final(self)@ == Seq::<GameCommand>::empty(),
            r@ == old(self)@,
    {
        let mut taken: Vec<GameCommand> = Vec::new();
        std::mem::swap(&mut taken, &mut self.items);
        taken
    }
}

/// Filling an empty queue up to its bound keeps every command, in order; the queue is then
/// full, so the next offer before a drain is turned away and changes nothing.
pub proof fn lemma_fill_to_capacity(cs: Seq<GameCommand>, extra: GameCommand)
    ensures
        offer_all(Seq::empty(), cs.len(), cs) == cs,
        !(offer_all(Seq::empty(), cs.len(), cs).len() < cs.len()),
        offer(cs, cs.len(), extra) == cs,
{
    lemma_offer_all_below_bound(cs, cs.len());
}

proof fn lemma_offer_all_below_bound(cs: Seq<GameCommand>, bound: nat)
    requires
        cs.len() <= bound,
    ensures
        offer_all(Seq::empty(), bound, cs) == cs,
    decreases cs.len(),
{
    if cs.len() > 0 {
        lemma_offer_all_below_bound(cs.drop_last(), bound);
        assert(cs.drop_last().push(cs.last()) =~= cs);
    } else {
        assert(cs =~= Seq::<GameCommand>::empty());
    }
}

} // verus!
