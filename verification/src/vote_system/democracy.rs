//! Democracy: an epoch-based majority vote.
//!
//! Submitted commands are tallied; at the end of each epoch the most frequent
//! command (if any) becomes the decision and the tally starts afresh.  Each
//! submission also publishes a snapshot of the standings, so observers see
//! them live.

use super::{decision_events, VoteFunction, VoteSystemUpdate, VoteSystemUpdateView};
use crate::command::Command;
use crate::freq::{
    add_command, clone_command_tally, command_tally, is_max_count, max_command, new_command_tally,
};
use crate::stream::{emitted, extends, lemma_extends_refl, lemma_push_emits};
use vstd::multiset::Multiset;
use vstd::prelude::*;

verus! {

/// The tally after one more vote for `c`: it saturates once `u64::MAX`
/// samples are held, so a count never overflows its machine word.
pub open spec fn tally_after_vote(t: Multiset<Command>, c: Command) -> Multiset<Command> {
    if t.len() < u64::MAX {
        t.insert(c)
    } else {
        t
    }
}

/// The Democracy strategy: the current epoch's tally of submitted commands.
pub struct Democracy {
    vote_map: stats::Frequencies<Command>,
    votes_cast: u64,
}

impl View for Democracy {
    type V = Multiset<Command>;

    /// The commands tallied so far in the current epoch.
    closed spec fn view(&self) -> Multiset<Command> {
        command_tally(self.vote_map)
    }
}

impl Democracy {
    /// `votes_cast` mirrors the number of samples in the tally.
    pub closed spec fn wf(&self) -> bool {
        self.votes_cast as nat == command_tally(self.vote_map).len()
    }

    /// A fresh instance with an empty tally.
    pub fn new() -> (d: Democracy)
        ensures
            d.wf(),
            d@ =~= Multiset::<Command>::empty(),
    {
        Democracy { vote_map: new_command_tally(), votes_cast: 0 }
    }

    /// Count one vote and publish the new standings.
    pub fn call(&mut self, c: Command, secs_remaining: u64, out: &mut Vec<VoteSystemUpdate>)
        requires
            old(self).wf(),
        ensures
            final(self).wf(),
            final(self)@ =~= tally_after_vote(old(self)@, c),
            extends(old(out)@, final(out)@),
            emitted(old(out)@, final(out)@) =~= seq![
                VoteSystemUpdateView::DemocracyPartialResults(
                    secs_remaining,
                    tally_after_vote(old(self)@, c),
                ),
            ],
    {
        if self.votes_cast < u64::MAX {
            add_command(&mut self.vote_map, c);
            self.votes_cast = self.votes_cast + 1;
        }
        let snap = clone_command_tally(&self.vote_map);
        out.push(VoteSystemUpdate::DemocracyPartialResults(secs_remaining, snap));
        proof {
            lemma_push_emits(
                old(out)@,
                VoteSystemUpdate::DemocracyPartialResults(secs_remaining, snap),
            );
        }
    }

    /// End the epoch: decide for a most frequent command if any vote was
    /// cast, then reset the tally for the next epoch.
    pub fn decision_tick(&mut self, out: &mut Vec<VoteSystemUpdate>)
        requires
            old(self).wf(),
        ensures
            final(self).wf(),
            final(self)@ =~= Multiset::<Command>::empty(),
            extends(old(out)@, final(out)@),
            decision_events(old(self)@, emitted(old(out)@, final(out)@)),
    {
        match max_command(&self.vote_map) {
            Some(p) => {
                out.push(VoteSystemUpdate::Decision(p.0));
                proof {
                    lemma_push_emits(old(out)@, VoteSystemUpdate::Decision(p.0));
                    assert(is_max_count(old(self)@, p.0));
                    assert(emitted(old(out)@, out@) =~= seq![VoteSystemUpdateView::Decision(p.0)]);
                }
            },
            None => {
                proof {
                    lemma_extends_refl(out@);
                }
            },
        }
        self.vote_map = new_command_tally();
        self.votes_cast = 0;
    }

    /// Publish a snapshot of the current standings.
    pub fn partial_results(&self, secs_remaining: u64, out: &mut Vec<VoteSystemUpdate>)
        ensures
            extends(old(out)@, final(out)@),
            emitted(old(out)@, final(out)@) =~= seq![
                VoteSystemUpdateView::DemocracyPartialResults(secs_remaining, self@),
            ],
    {
        let snap = clone_command_tally(&self.vote_map);
        out.push(VoteSystemUpdate::DemocracyPartialResults(secs_remaining, snap));
        proof {
            lemma_push_emits(
                old(out)@,
                VoteSystemUpdate::DemocracyPartialResults(secs_remaining, snap),
            );
        }
    }
}

/// Factory for [`Democracy`] instances.
pub struct DemocracyCreator {}

impl DemocracyCreator {
    /// Build a fresh Democracy strategy with an empty tally.
    pub fn create(&self) -> (v: VoteFunction)
        ensures
            v.wf(),
            v@ =~= super::fresh_strategy(super::VoteSystem::Democracy),
    {
        VoteFunction::Democracy(Democracy::new())
    }
}

} // verus!
