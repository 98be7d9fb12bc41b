//! The replaceable decision policies ("vote systems").
//!
//! A strategy consumes action commands through [`VoteFunction::call`] and
//! reports what it did by appending [`VoteSystemUpdate`] events to a vector
//! that stands for its output channel.  Anarchy turns every command into a
//! decision at once; Democracy tallies an epoch and decides at its end.

use crate::command::Command;
use crate::freq::{command_tally, is_max_count};
use crate::stream::{emitted, extends};
use vstd::multiset::Multiset;
use vstd::prelude::*;

pub mod anarchy;
pub mod democracy;

pub use anarchy::Anarchy;
pub use anarchy::AnarchyCreator;
pub use democracy::Democracy;
pub use democracy::DemocracyCreator;

verus! {

/// The decision policy that is currently turning submitted actions into
/// decisions: every vote wins at once (Anarchy) or an epoch-based majority
/// vote (Democracy).
#[derive(Debug, Clone, Copy, PartialEq, Eq, Hash, Structural)]
pub enum VoteSystem {
    Anarchy,
    Democracy,
}

/// An event a strategy sends on its output channel: a decision, or a live
/// snapshot of Democracy's tally with the seconds left in its epoch.
pub enum VoteSystemUpdate {
    Decision(Command),
    DemocracyPartialResults(u64, stats::Frequencies<Command>),
}

/// What a [`VoteSystemUpdate`] says: the snapshot is read as the multiset of
/// samples it holds.
pub enum VoteSystemUpdateView {
    Decision(Command),
    DemocracyPartialResults(u64, Multiset<Command>),
}

impl View for VoteSystemUpdate {
    type V = VoteSystemUpdateView;

    open spec fn view(&self) -> VoteSystemUpdateView {
        match self {
            VoteSystemUpdate::Decision(c) => VoteSystemUpdateView::Decision(*c),
            VoteSystemUpdate::DemocracyPartialResults(t, f) =>
                VoteSystemUpdateView::DemocracyPartialResults(*t, command_tally(*f)),
        }
    }
}

/// The state of a strategy, as the contracts speak of it: Anarchy keeps
/// nothing, Democracy keeps its epoch's tally.
#[verifier::ext_equal]
pub enum StrategyView {
    Anarchy,
    Democracy(Multiset<Command>),
}

/// The state of a newly constructed strategy for `s`.
pub open spec fn fresh_strategy(s: VoteSystem) -> StrategyView {
    match s {
        VoteSystem::Anarchy => StrategyView::Anarchy,
        VoteSystem::Democracy => StrategyView::Democracy(Multiset::empty()),
    }
}

/// What one submitted command does to a strategy and what it emits: Anarchy
/// decides at once; Democracy counts the vote (its tally saturates at
/// `u64::MAX` samples) and publishes a snapshot of the standings.
pub open spec fn strategy_call_step(v: StrategyView, c: Command, secs_remaining: u64) -> (
    StrategyView,
    Seq<VoteSystemUpdateView>,
) {
    match v {
        StrategyView::Anarchy => (v, seq![VoteSystemUpdateView::Decision(c)]),
        StrategyView::Democracy(t) => {
            let t2 = democracy::tally_after_vote(t, c);
            (
                StrategyView::Democracy(t2),
                seq![VoteSystemUpdateView::DemocracyPartialResults(secs_remaining, t2)],
            )
        },
    }
}

/// What Democracy's epoch-ending tick emits for a tally `t`: nothing if the
/// epoch saw no votes, otherwise exactly one decision for a command of
/// maximal count.
pub open spec fn decision_events(t: Multiset<Command>, ev: Seq<VoteSystemUpdateView>) -> bool {
    if t.len() == 0 {
        ev =~= Seq::<VoteSystemUpdateView>::empty()
    } else {
        exists|c: Command|
            is_max_count(t, c) && ev =~= seq![VoteSystemUpdateView::Decision(c)]
    }
}

/// The live, stateful instance of the active vote system.
pub enum VoteFunction {
    Anarchy(Anarchy),
    Democracy(Democracy),
}

impl View for VoteFunction {
    type V = StrategyView;

    open spec fn view(&self) -> StrategyView {
        match self {
            VoteFunction::Anarchy(_) => StrategyView::Anarchy,
            VoteFunction::Democracy(d) => StrategyView::Democracy(d@),
        }
    }
}

impl VoteFunction {
    pub open spec fn wf(&self) -> bool {
        match self {
            VoteFunction::Anarchy(_) => true,
            VoteFunction::Democracy(d) => d.wf(),
        }
    }

    /// Submit one command to the active strategy.
    pub fn call(&mut self, c: Command, secs_remaining: u64, out: &mut Vec<VoteSystemUpdate>)
        requires
            old(self).wf(),
        ensures
            final(self).wf(),
            final(self)@ =~= strategy_call_step(old(self)@, c, secs_remaining).0,
            extends(old(out)@, final(out)@),
            emitted(old(out)@, final(out)@) =~= strategy_call_step(old(self)@, c, secs_remaining).1,
    {
        match self {
            VoteFunction::Anarchy(a) => a.call(c, out),
            VoteFunction::Democracy(d) => d.call(c, secs_remaining, out),
        }
    }

    /// Democracy's epoch-ending tick: decide and start a new epoch.  Anarchy
    /// has no epochs and does nothing.
    pub fn decision_tick(&mut self, out: &mut Vec<VoteSystemUpdate>)
        requires
            old(self).wf(),
        ensures
            final(self).wf(),
            final(self)@ =~= fresh_strategy_after_tick(old(self)@),
            extends(old(out)@, final(out)@),
            match old(self)@ {
                StrategyView::Anarchy => emitted(old(out)@, final(out)@) =~= Seq::<
                    VoteSystemUpdateView,
                >::empty(),
                StrategyView::Democracy(t) => decision_events(t, emitted(old(out)@, final(out)@)),
            },
    {
        match self {
            VoteFunction::Anarchy(_) => {
                proof {
                    crate::stream::lemma_extends_refl(out@);
                }
            },
            VoteFunction::Democracy(d) => d.decision_tick(out),
        }
    }

    /// Publish a snapshot of Democracy's standings.  Anarchy has none and
    /// stays silent.
    pub fn partial_results(&self, secs_remaining: u64, out: &mut Vec<VoteSystemUpdate>)
        requires
            self.wf(),
        ensures
            extends(old(out)@, final(out)@),
            emitted(old(out)@, final(out)@) =~= partial_results_events(self@, secs_remaining),
    {
        match self {
            VoteFunction::Anarchy(_) => {
                proof {
                    crate::stream::lemma_extends_refl(out@);
                }
            },
            VoteFunction::Democracy(d) => d.partial_results(secs_remaining, out),
        }
    }
}

/// The strategy state after an epoch-ending tick: Democracy's tally is
/// cleared, Anarchy is unchanged.
pub open spec fn fresh_strategy_after_tick(v: StrategyView) -> StrategyView {
    match v {
        StrategyView::Anarchy => StrategyView::Anarchy,
        StrategyView::Democracy(_) => StrategyView::Democracy(Multiset::empty()),
    }
}

/// What a snapshot request emits: Democracy's current standings, nothing for
/// Anarchy.
pub open spec fn partial_results_events(v: StrategyView, secs_remaining: u64) -> Seq<
    VoteSystemUpdateView,
> {
    match v {
        StrategyView::Anarchy => Seq::empty(),
        StrategyView::Democracy(t) => seq![
            VoteSystemUpdateView::DemocracyPartialResults(secs_remaining, t),
        ],
    }
}

/// A factory for a strategy instance of one vote system.
pub enum VoteSystemCreator {
    Anarchy(AnarchyCreator),
    Democracy(DemocracyCreator),
}

impl VoteSystemCreator {
    /// The vote system this factory builds strategies for.
    pub open spec fn system(&self) -> VoteSystem {
        match self {
            VoteSystemCreator::Anarchy(_) => VoteSystem::Anarchy,
            VoteSystemCreator::Democracy(_) => VoteSystem::Democracy,
        }
    }

    /// Build a fresh strategy instance.
    pub fn create(&self) -> (v: VoteFunction)
        ensures
            v.wf(),
            v@ =~= fresh_strategy(self.system()),
    {
        match self {
            VoteSystemCreator::Anarchy(c) => c.create(),
            VoteSystemCreator::Democracy(c) => c.create(),
        }
    }
}

impl VoteSystem {
    /// The factory for this vote system.
    pub fn creator(&self) -> (c: VoteSystemCreator)
        ensures
            c.system() == *self,
    {
        match self {
            VoteSystem::Anarchy => VoteSystemCreator::Anarchy(AnarchyCreator {  }),
            VoteSystem::Democracy => VoteSystemCreator::Democracy(DemocracyCreator {  }),
        }
    }
}

} // verus!
