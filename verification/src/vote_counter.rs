//! A frequency tally with winner and percentage queries.
//!
//! The mediator keeps one counter over [`VoteSystem`] keys as the meta-tally
//! that decides which vote system becomes active.  Each vote publishes, on
//! the mediator's update stream, the share of the counter's reference element
//! in the new standings.

use crate::freq::{
    add_system, count_system, is_max_count, max_system, new_system_tally, system_tally,
};
use crate::mediator::{MediatorUpdate, Percentage, UpdateView};
use crate::stream::{emitted, extends, lemma_push_emits};
use crate::vote_system::VoteSystem;
use vstd::multiset::Multiset;
use vstd::prelude::*;

verus! {

/// The abstract state of a counter: its tally and the key whose share the
/// published percentages report.
#[verifier::ext_equal]
pub struct VoteCounterView {
    pub tally: Multiset<VoteSystem>,
    pub reference: VoteSystem,
}

/// The tally after one more vote for `k`: it saturates once `u64::MAX`
/// samples are held, so a count never overflows its machine word.
pub open spec fn tally_after_system_vote(t: Multiset<VoteSystem>, k: VoteSystem) -> Multiset<
    VoteSystem,
> {
    if t.len() < u64::MAX {
        t.insert(k)
    } else {
        t
    }
}

/// What one vote does to a counter and what it publishes: the reference
/// element's count and the new total, as an exact fraction.
pub open spec fn counter_vote_step(cv: VoteCounterView, key: VoteSystem) -> (
    VoteCounterView,
    Seq<UpdateView>,
) {
    let t2 = tally_after_system_vote(cv.tally, key);
    (
        VoteCounterView { tally: t2, reference: cv.reference },
        seq![
            UpdateView::VoteSystemPercentageChange(
                Some((t2.count(cv.reference) as u64, t2.len() as u64)),
            ),
        ],
    )
}

/// A frequency tally over [`VoteSystem`] keys.
pub struct VoteCounter {
    frequencies: stats::Frequencies<VoteSystem>,
    total: u64,
    update_reference_element: VoteSystem,
}

impl View for VoteCounter {
    type V = VoteCounterView;

    closed spec fn view(&self) -> VoteCounterView {
        VoteCounterView {
            tally: system_tally(self.frequencies),
            reference: self.update_reference_element,
        }
    }
}

impl VoteCounter {
    /// `total` mirrors the number of samples in the tally.
    pub closed spec fn wf(&self) -> bool {
        self.total as nat == system_tally(self.frequencies).len()
    }

    /// A fresh, empty counter whose published percentages report the share of
    /// `reference_element`.
    pub fn new(reference_element: VoteSystem) -> (c: VoteCounter)
        ensures
            c.wf(),
            c@.tally =~= Multiset::<VoteSystem>::empty(),
            c@.reference == reference_element,
    {
        VoteCounter {
            frequencies: new_system_tally(),
            total: 0,
            update_reference_element: reference_element,
        }
    }

    /// Count one vote and publish the reference element's new share.
    pub fn vote(&mut self, key: VoteSystem, out: &mut Vec<MediatorUpdate>)
        requires
            old(self).wf(),
        ensures
            final(self).wf(),
            final(self)@ =~= counter_vote_step(old(self)@, key).0,
            extends(old(out)@, final(out)@),
            emitted(old(out)@, final(out)@) =~= counter_vote_step(old(self)@, key).1,
    {
        if self.total < u64::MAX {
            add_system(&mut self.frequencies, key);
            self.total = self.total + 1;
        }
        let count = count_system(&self.frequencies, &self.update_reference_element);
        let pct = Percentage { count, total: self.total };
        out.push(MediatorUpdate::VoteSystemPercentageChange(Some(pct)));
        proof {
            lemma_push_emits(old(out)@, MediatorUpdate::VoteSystemPercentageChange(Some(pct)));
        }
    }

    /// A key of maximal count, or nothing when the tally is empty.
    pub fn winner(&self) -> (r: Option<VoteSystem>)
        ensures
            match r {
                Some(k) => is_max_count(self@.tally, k),
                None => self@.tally.len() == 0,
            },
    {
        match max_system(&self.frequencies) {
            Some(p) => Some(p.0),
            None => None,
        }
    }

    /// The key's share of all votes, as an exact fraction.  A total of zero
    /// means the tally is empty and there is no data.
    pub fn percentage(&self, key: VoteSystem) -> (p: Percentage)
        requires
            self.wf(),
        ensures
            p.count as nat == self@.tally.count(key),
            p.total as nat == self@.tally.len(),
    {
        Percentage { count: count_system(&self.frequencies, &key), total: self.total }
    }

    /// Clear the tally and publish that there is no data any more.
    pub fn reset(&mut self, out: &mut Vec<MediatorUpdate>)
        ensures
            final(self).wf(),
            final(self)@.tally =~= Multiset::<VoteSystem>::empty(),
            final(self)@.reference == old(self)@.reference,
            extends(old(out)@, final(out)@),
            emitted(old(out)@, final(out)@) =~= seq![
                UpdateView::VoteSystemPercentageChange(None),
            ],
    {
        self.frequencies = new_system_tally();
        self.total = 0;
        out.push(MediatorUpdate::VoteSystemPercentageChange(None));
        proof {
            lemma_push_emits(old(out)@, MediatorUpdate::VoteSystemPercentageChange(None));
        }
    }
}

} // verus!
