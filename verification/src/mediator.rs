//! The mediator: one serialized update stream out of many concurrent voters.
//!
//! The mediator owns the active strategy, the meta-tally that decides which
//! strategy is active, and the identifier of the active vote system.  Each
//! public method is one step of the orchestration: the surrounding process
//! drives them from its input source and its timers, and every step reports
//! what it published by appending to a vector that stands for the update
//! stream.  The specification functions beside the methods say exactly which
//! events each step appends and how the state changes.

use crate::command::Command;
use crate::command_input::Input;
use crate::freq::is_max_count;
use crate::stream::{
    emitted, extends, lemma_extends_refl, lemma_extends_trans, lemma_push_emits, views_of,
};
use crate::vote_counter::{counter_vote_step, VoteCounter, VoteCounterView};
use crate::vote_system::{
    fresh_strategy, fresh_strategy_after_tick, partial_results_events, strategy_call_step,
    StrategyView, VoteFunction, VoteSystem, VoteSystemUpdate, VoteSystemUpdateView,
};
use vstd::multiset::Multiset;
use vstd::prelude::*;

verus! {

/// A decision the mediator relays to the output device.
pub enum MediatedDecision {
    Command(Command),
}

/// An exact share: `count` votes for the reference element out of `total`
/// votes overall.  A `total` of zero means there is no data.
#[derive(Debug, Clone, Copy, PartialEq, Eq, Structural)]
pub struct Percentage {
    pub count: u64,
    pub total: u64,
}

/// One event of the mediator's outbound update stream.
pub enum MediatorUpdate {
    VoteSystemChange(VoteSystem),
    VoteSystemChangeSecsRemaining(u64),
    VoteSystemPercentageChange(Option<Percentage>),
    VoteSystemDemocracyPartialResults(u64, stats::Frequencies<Command>),
    Input(Input),
    Decision(MediatedDecision),
}

/// What a [`MediatorUpdate`] says: snapshots are read as multisets, users as
/// their character sequences, percentages as `(count, total)` pairs.
pub enum UpdateView {
    VoteSystemChange(VoteSystem),
    VoteSystemChangeSecsRemaining(u64),
    VoteSystemPercentageChange(Option<(u64, u64)>),
    VoteSystemDemocracyPartialResults(u64, Multiset<Command>),
    Input(Command, Seq<char>),
    Decision(Command),
}

impl View for MediatorUpdate {
    type V = UpdateView;

    open spec fn view(&self) -> UpdateView {
        match self {
            MediatorUpdate::VoteSystemChange(s) => UpdateView::VoteSystemChange(*s),
            MediatorUpdate::VoteSystemChangeSecsRemaining(t) =>
                UpdateView::VoteSystemChangeSecsRemaining(*t),
            MediatorUpdate::VoteSystemPercentageChange(p) => UpdateView::VoteSystemPercentageChange(
                match p {
                    Some(q) => Some((q.count, q.total)),
                    None => None,
                },
            ),
            MediatorUpdate::VoteSystemDemocracyPartialResults(t, f) =>
                UpdateView::VoteSystemDemocracyPartialResults(*t, crate::freq::command_tally(*f)),
            MediatorUpdate::Input(i) => UpdateView::Input(i.0, i.1@),
            MediatorUpdate::Decision(d) => match d {
                MediatedDecision::Command(c) => UpdateView::Decision(*c),
            },
        }
    }
}

/// A strategy event, reworded as an update-stream event.
pub open spec fn lift_vsu(v: VoteSystemUpdateView) -> UpdateView {
    match v {
        VoteSystemUpdateView::Decision(c) => UpdateView::Decision(c),
        VoteSystemUpdateView::DemocracyPartialResults(t, m) =>
            UpdateView::VoteSystemDemocracyPartialResults(t, m),
    }
}

pub open spec fn lift_vsu_seq(s: Seq<VoteSystemUpdateView>) -> Seq<UpdateView> {
    s.map_values(|v: VoteSystemUpdateView| lift_vsu(v))
}

/// The abstract state of the mediator.
#[verifier::ext_equal]
pub struct MediatorView {
    pub system: VoteSystem,
    pub strategy: StrategyView,
    pub counter: VoteCounterView,
}

/// The state right after [`Mediator::create`]: the chosen system's fresh
/// strategy, and an empty meta-tally whose percentages report Anarchy's
/// share.
pub open spec fn initial_mediator(system: VoteSystem) -> MediatorView {
    MediatorView {
        system: system,
        strategy: fresh_strategy(system),
        counter: VoteCounterView {
            tally: Multiset::empty(),
            reference: VoteSystem::Anarchy,
        },
    }
}

/// What one received input does and emits.  The input itself is republished
/// first; then a meta-vote goes to the counter, while any other command goes
/// to the active strategy, whose events follow on the same stream.
pub open spec fn step_input(
    m: MediatorView,
    c: Command,
    user: Seq<char>,
    secs_remaining: u64,
) -> (MediatorView, Seq<UpdateView>) {
    let inp = seq![UpdateView::Input(c, user)];
    match c {
        Command::ChangeVoteSystem(s) => {
            let r = counter_vote_step(m.counter, s);
            (MediatorView { counter: r.0, ..m }, inp + r.1)
        },
        Command::Action(_) => {
            let r = strategy_call_step(m.strategy, c, secs_remaining);
            (MediatorView { strategy: r.0, ..m }, inp + lift_vsu_seq(r.1))
        },
    }
}

/// The counter after its tally was cleared.
pub open spec fn reset_counter(cv: VoteCounterView) -> VoteCounterView {
    VoteCounterView { tally: Multiset::empty(), reference: cv.reference }
}

/// `w` is what the meta-tally's winner lookup may return: a key of maximal
/// count, or nothing exactly when the tally is empty.
pub open spec fn winner_opt(t: Multiset<VoteSystem>, w: Option<VoteSystem>) -> bool {
    match w {
        Some(k) => is_max_count(t, k),
        None => t.len() == 0,
    }
}

/// What the policy-switch tick does and emits, given the winner `w` the
/// meta-tally reported: the tally is always cleared (publishing that its
/// percentages have no data), and only a winner that differs from the active
/// system replaces the strategy and announces the change.
pub open spec fn change_tick_with(
    pre: MediatorView,
    w: Option<VoteSystem>,
    post: MediatorView,
    ev: Seq<UpdateView>,
) -> bool {
    let cleared = reset_counter(pre.counter);
    match w {
        Some(s) => if s != pre.system {
            &&& post =~= MediatorView { system: s, strategy: fresh_strategy(s), counter: cleared }
            &&& ev =~= seq![
                UpdateView::VoteSystemPercentageChange(None),
                UpdateView::VoteSystemChange(s),
            ]
        } else {
            &&& post =~= MediatorView { counter: cleared, ..pre }
            &&& ev =~= seq![UpdateView::VoteSystemPercentageChange(None)]
        },
        None => {
            &&& post =~= MediatorView { counter: cleared, ..pre }
            &&& ev =~= seq![UpdateView::VoteSystemPercentageChange(None)]
        },
    }
}

/// The policy-switch tick, for some winner the meta-tally may report.  On a
/// tie, any key of maximal count may win.
pub open spec fn change_tick_rel(pre: MediatorView, post: MediatorView, ev: Seq<UpdateView>) -> bool {
    exists|w: Option<VoteSystem>|
        #[trigger] winner_opt(pre.counter.tally, w) && change_tick_with(pre, w, post, ev)
}

/// What Democracy's epoch-ending tick emits on the update stream: nothing if
/// the epoch saw no votes, otherwise exactly one decision for a command of
/// maximal count.
pub open spec fn decision_events_m(t: Multiset<Command>, ev: Seq<UpdateView>) -> bool {
    if t.len() == 0 {
        ev =~= Seq::<UpdateView>::empty()
    } else {
        exists|c: Command| is_max_count(t, c) && ev =~= seq![UpdateView::Decision(c)]
    }
}

/// The epoch-ending tick: Democracy decides and starts a new epoch, Anarchy
/// does nothing.
pub open spec fn decision_tick_rel(pre: MediatorView, post: MediatorView, ev: Seq<UpdateView>) -> bool {
    &&& post =~= MediatorView { strategy: fresh_strategy_after_tick(pre.strategy), ..pre }
    &&& match pre.strategy {
        StrategyView::Anarchy => ev =~= Seq::<UpdateView>::empty(),
        StrategyView::Democracy(t) => decision_events_m(t, ev),
    }
}

/// What the snapshot tick emits: Democracy's current standings, nothing for
/// Anarchy.
pub open spec fn partial_tick_events(m: MediatorView, secs_remaining: u64) -> Seq<UpdateView> {
    lift_vsu_seq(partial_results_events(m.strategy, secs_remaining))
}

/// Translate one strategy event into the corresponding update-stream event.
fn relay_update(u: VoteSystemUpdate) -> (r: MediatorUpdate)
    ensures
        r@ == lift_vsu(u@),
{
    match u {
        VoteSystemUpdate::Decision(cmd) => MediatorUpdate::Decision(MediatedDecision::Command(cmd)),
        VoteSystemUpdate::DemocracyPartialResults(t, part) =>
            MediatorUpdate::VoteSystemDemocracyPartialResults(t, part),
    }
}

/// Relay a batch of strategy events onto the update stream, in order.
fn relay_into(updates: Vec<VoteSystemUpdate>, out: &mut Vec<MediatorUpdate>)
    ensures
        extends(old(out)@, final(out)@),
        emitted(old(out)@, final(out)@) =~= lift_vsu_seq(views_of(updates@)),
{
    let ghost all = updates@;
    let mut rest = updates;
    proof {
        lemma_extends_refl(out@);
        assert(emitted(out@, out@) + lift_vsu_seq(views_of(rest@)) =~= lift_vsu_seq(
            views_of(all),
        ));
    }
    while rest.len() > 0
        invariant
            extends(old(out)@, out@),
            emitted(old(out)@, out@) + lift_vsu_seq(views_of(rest@)) =~= lift_vsu_seq(
                views_of(all),
            ),
        decreases rest.len(),
    {
        let ghost pre_out = out@;
        let ghost pre_rest = rest@;
        let u = rest.remove(0);
        let m = relay_update(u);
        out.push(m);
        proof {
            lemma_push_emits(pre_out, m);
            lemma_extends_trans(old(out)@, pre_out, out@);
            assert(views_of(pre_rest) =~= seq![u@] + views_of(rest@));
            assert(lift_vsu_seq(seq![u@] + views_of(rest@)) =~= seq![lift_vsu(u@)] + lift_vsu_seq(
                views_of(rest@),
            ));
            assert(emitted(old(out)@, out@) + lift_vsu_seq(views_of(rest@)) =~= lift_vsu_seq(
                views_of(all),
            ));
        }
    }
}

/// The orchestrator: the active strategy, the meta-tally, and the identifier
/// of the active vote system.
pub struct Mediator {
    current_system: VoteSystem,
    vote_function: VoteFunction,
    system_counter: VoteCounter,
}

impl View for Mediator {
    type V = MediatorView;

    closed spec fn view(&self) -> MediatorView {
        MediatorView {
            system: self.current_system,
            strategy: self.vote_function@,
            counter: self.system_counter@,
        }
    }
}

impl Mediator {
    pub closed spec fn wf(&self) -> bool {
        &&& self.vote_function.wf()
        &&& self.system_counter.wf()
    }

    /// Build a mediator running `system`, together with the bootstrap events
    /// of its update stream: exactly one announcement of the initial system,
    /// before anything else.
    pub fn create(system: VoteSystem) -> (r: (Mediator, Vec<MediatorUpdate>))
        ensures
            r.0.wf(),
            r.0@ =~= initial_mediator(system),
            views_of(r.1@) =~= seq![UpdateView::VoteSystemChange(system)],
    {
        let vote_function = system.creator().create();
        let mut updates: Vec<MediatorUpdate> = Vec::new();
        updates.push(MediatorUpdate::VoteSystemChange(system));
        let system_counter = VoteCounter::new(VoteSystem::Anarchy);
        let m = Mediator { current_system: system, vote_function, system_counter };
        proof {
            assert(views_of(updates@) =~= seq![UpdateView::VoteSystemChange(system)]);
        }
        (m, updates)
    }

    /// One received input: republish it, then route it — a meta-vote to the
    /// counter, anything else to the active strategy.
    pub fn handle_input(&mut self, input: Input, secs_remaining: u64, out: &mut Vec<MediatorUpdate>)
        requires
            old(self).wf(),
        ensures
            final(self).wf(),
            final(self)@ =~= step_input(old(self)@, input.0, input.1@, secs_remaining).0,
            extends(old(out)@, final(out)@),
            emitted(old(out)@, final(out)@) =~= step_input(
                old(self)@,
                input.0,
                input.1@,
                secs_remaining,
            ).1,
    {
        let cmd = input.0;
        out.push(MediatorUpdate::Input(input));
        proof {
            lemma_push_emits(old(out)@, MediatorUpdate::Input(input));
        }
        let ghost mid = out@;
        if let Command::ChangeVoteSystem(system) = cmd {
            self.system_counter.vote(system, out);
        } else {
            let mut vsu: Vec<VoteSystemUpdate> = Vec::new();
            self.vote_function.call(cmd, secs_remaining, &mut vsu);
            proof {
                assert(views_of(vsu@) =~= strategy_call_step(
                    old(self)@.strategy,
                    cmd,
                    secs_remaining,
                ).1);
            }
            relay_into(vsu, out);
        }
        proof {
            lemma_extends_trans(old(out)@, mid, out@);
        }
    }

    /// Replace the active strategy by a fresh one for `new_vote_system`.  The
    /// old strategy is dropped here, before the new one can emit: its events
    /// are all already on the stream.
    fn swap_vote_system(&mut self, new_vote_system: VoteSystem)
        requires
            old(self).wf(),
        ensures
            final(self).wf(),
            final(self)@.system == new_vote_system,
            final(self)@.strategy =~= fresh_strategy(new_vote_system),
            final(self)@.counter =~= old(self)@.counter,
    {
        let vote_fn = new_vote_system.creator().create();
        self.vote_function = vote_fn;
        self.current_system = new_vote_system;
    }

    /// The policy-switch tick: read the meta-tally's winner, clear the tally,
    /// and — only if the winner differs from the active system — swap the
    /// strategy and announce the change.
    pub fn vote_system_change_tick(&mut self, out: &mut Vec<MediatorUpdate>)
        requires
            old(self).wf(),
        ensures
            final(self).wf(),
            extends(old(out)@, final(out)@),
            change_tick_rel(old(self)@, final(self)@, emitted(old(out)@, final(out)@)),
    {
        let winner = self.system_counter.winner();
        self.system_counter.reset(out);
        let ghost mid = out@;
        let ghost pre = old(self)@;
        match winner {
            Some(system) => {
                if system != self.current_system {
                    self.swap_vote_system(system);
                    out.push(MediatorUpdate::VoteSystemChange(system));
                    proof {
                        lemma_push_emits(mid, MediatorUpdate::VoteSystemChange(system));
                        lemma_extends_trans(old(out)@, mid, out@);
                        assert(winner_opt(pre.counter.tally, winner));
                        assert(change_tick_with(
                            pre,
                            winner,
                            self@,
                            emitted(old(out)@, out@),
                        ));
                    }
                } else {
                    proof {
                        assert(winner_opt(pre.counter.tally, winner));
                        assert(change_tick_with(
                            pre,
                            winner,
                            self@,
                            emitted(old(out)@, out@),
                        ));
                    }
                }
            },
            None => {
                proof {
                    assert(winner_opt(pre.counter.tally, winner));
                    assert(change_tick_with(pre, winner, self@, emitted(old(out)@, out@)));
                }
            },
        }
    }

    /// The epoch-ending tick of the active strategy: Democracy decides and
    /// resets its tally, Anarchy does nothing.
    pub fn decision_tick(&mut self, out: &mut Vec<MediatorUpdate>)
        requires
            old(self).wf(),
        ensures
            final(self).wf(),
            extends(old(out)@, final(out)@),
            decision_tick_rel(old(self)@, final(self)@, emitted(old(out)@, final(out)@)),
    {
        let mut vsu: Vec<VoteSystemUpdate> = Vec::new();
        self.vote_function.decision_tick(&mut vsu);
        let ghost ev0 = views_of(vsu@);
        relay_into(vsu, out);
        proof {
            match old(self)@.strategy {
                StrategyView::Anarchy => {
                    assert(emitted(old(out)@, out@) =~= Seq::<UpdateView>::empty());
                },
                StrategyView::Democracy(t) => {
                    if t.len() > 0 {
                        let c = choose|c: Command|
                            is_max_count(t, c) && ev0 =~= seq![VoteSystemUpdateView::Decision(c)];
                        assert(lift_vsu_seq(ev0) =~= seq![UpdateView::Decision(c)]);
                        assert(emitted(old(out)@, out@) =~= seq![UpdateView::Decision(c)]);
                    } else {
                        assert(emitted(old(out)@, out@) =~= Seq::<UpdateView>::empty());
                    }
                },
            }
        }
    }

    /// Publish a snapshot of Democracy's standings; silent under Anarchy.
    pub fn partial_results_tick(&self, secs_remaining: u64, out: &mut Vec<MediatorUpdate>)
        requires
            self.wf(),
        ensures
            extends(old(out)@, final(out)@),
            emitted(old(out)@, final(out)@) =~= partial_tick_events(self@, secs_remaining),
    {
        let mut vsu: Vec<VoteSystemUpdate> = Vec::new();
        self.vote_function.partial_results(secs_remaining, &mut vsu);
        relay_into(vsu, out);
    }

    /// Publish how many seconds remain until the next policy-switch tick.
    pub fn secs_remaining_tick(&self, secs_remaining: u64, out: &mut Vec<MediatorUpdate>)
        ensures
            extends(old(out)@, final(out)@),
            emitted(old(out)@, final(out)@) =~= seq![
                UpdateView::VoteSystemChangeSecsRemaining(secs_remaining),
            ],
    {
        out.push(MediatorUpdate::VoteSystemChangeSecsRemaining(secs_remaining));
        proof {
            lemma_push_emits(
                old(out)@,
                MediatorUpdate::VoteSystemChangeSecsRemaining(secs_remaining),
            );
        }
    }
}

} // verus!
