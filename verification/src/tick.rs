//! The order in which one tick of the simulation does its work.

use vstd::prelude::*;

verus! {

/// The pieces of work of one tick.
#[derive(Clone, Copy, Debug, PartialEq, Eq, Structural)]
pub enum TickPhase {
    /// The wall mask is rebuilt from the layout of walls.
    SyncWalls,
    /// The solver takes one step.
    Diffuse,
    /// Breaches vent and breathers breathe.
    Interact,
    /// Every amount is brought back into its range.
    Clamp,
    /// Renderers and other readers are shown the cells.
    Present,
}

impl TickPhase {
    /// The place of the phase in a tick, from 0.
    pub open spec fn rank(self) -> nat {
        match self {
            TickPhase::SyncWalls => 0,
            TickPhase::Diffuse => 1,
            TickPhase::Interact => 2,
            TickPhase::Clamp => 3,
            TickPhase::Present => 4,
        }
    }

    /// The phase with which a tick begins.
    pub fn first() -> (phase: TickPhase)
        ensures
            phase.rank() == 0,
    {
        TickPhase::SyncWalls
    }

    /// The phase that follows this one; nothing after the last.
    pub fn next(self) -> (following: Option<TickPhase>)
        ensures
            self.rank() < 4 ==> following is Some && following->Some_0.rank() == self.rank() + 1,
            self.rank() == 4 ==> following is None,
    {
        match self {
            TickPhase::SyncWalls => Some(TickPhase::Diffuse),
            TickPhase::Diffuse => Some(TickPhase::Interact),
            TickPhase::Interact => Some(TickPhase::Clamp),
            TickPhase::Clamp => Some(TickPhase::Present),
            TickPhase::Present => None,
        }
    }

    /// The phase that this one follows; nothing before the first.
    pub fn previous(self) -> (before: Option<TickPhase>)
        ensures
            self.rank() > 0 ==> before is Some && before->Some_0.rank() + 1 == self.rank(),
            self.rank() == 0 ==> before is None,
    {
        match self {
            TickPhase::SyncWalls => None,
            TickPhase::Diffuse => Some(TickPhase::SyncWalls),
            TickPhase::Interact => Some(TickPhase::Diffuse),
            TickPhase::Clamp => Some(TickPhase::Interact),
            TickPhase::Present => Some(TickPhase::Clamp),
        }
    }
}

/// A phase is known by its place in the tick.
pub proof fn lemma_rank_is_injective(a: TickPhase, b: TickPhase)
    requires
        a.rank() == b.rank(),
    ensures
        a == b,
{
}

/// The solver steps on a fresh mask, point interactions come after the step,
/// and the clamp comes after them and before anything is shown.
pub proof fn lemma_tick_order()
    ensures
        TickPhase::SyncWalls.rank() < TickPhase::Diffuse.rank() < TickPhase::Interact.rank()
            < TickPhase::Clamp.rank() < TickPhase::Present.rank(),
{
}

} // verus!
