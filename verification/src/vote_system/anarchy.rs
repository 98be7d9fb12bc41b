//! Anarchy: every vote wins, immediately and independently.

use super::{VoteFunction, VoteSystemUpdate, VoteSystemUpdateView};
use crate::command::Command;
use crate::stream::{emitted, extends, lemma_push_emits};
use vstd::prelude::*;

verus! {

/// The Anarchy strategy: no state beyond its output channel.
pub struct Anarchy {}

impl Anarchy {
    /// Pure forwarding: every submitted command becomes one decision at once.
    pub fn call(&self, c: Command, out: &mut Vec<VoteSystemUpdate>)
        ensures
            extends(old(out)@, final(out)@),
            emitted(old(out)@, final(out)@) =~= seq![VoteSystemUpdateView::Decision(c)],
    {
        out.push(VoteSystemUpdate::Decision(c));
        proof {
            lemma_push_emits(old(out)@, VoteSystemUpdate::Decision(c));
        }
    }
}

/// Factory for [`Anarchy`] instances.
pub struct AnarchyCreator {}

impl AnarchyCreator {
    /// Build a fresh Anarchy strategy.
    pub fn create(&self) -> (v: VoteFunction)
        ensures
            v.wf(),
            v@ =~= super::fresh_strategy(super::VoteSystem::Anarchy),
    {
        VoteFunction::Anarchy(Anarchy {  })
    }
}

} // verus!
