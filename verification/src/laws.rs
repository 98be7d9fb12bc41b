//! Laws of the decision-aggregation model.
//!
//! The public methods of the strategies, the counter and the mediator state
//! their exact one-step behaviour over the specification functions
//! `strategy_call_step`, `counter_vote_step`, `step_input` and the tick
//! relations.  The proofs here state what follows for whole runs: what a
//! sequence of submissions tallies and emits, and what the ticks may decide.

use crate::command::Command;
use crate::freq::is_max_count;
use crate::mediator::{
    change_tick_rel, change_tick_with, step_input, winner_opt, MediatorView, UpdateView,
};
use crate::vote_counter::{counter_vote_step, VoteCounterView};
use crate::vote_system::{
    decision_events, fresh_strategy, strategy_call_step, StrategyView, VoteSystem,
    VoteSystemUpdateView,
};
use vstd::multiset::Multiset;
use vstd::prelude::*;

verus! {

/// The strategy state and the emitted events after a whole sequence of
/// submissions, each a command with the epoch seconds then remaining.
pub open spec fn strategy_run(v: StrategyView, inputs: Seq<(Command, u64)>) -> (
    StrategyView,
    Seq<VoteSystemUpdateView>,
)
    decreases inputs.len(),
{
    if inputs.len() == 0 {
        (v, Seq::empty())
    } else {
        let prev = strategy_run(v, inputs.drop_last());
        let last = inputs.last();
        let step = strategy_call_step(prev.0, last.0, last.1);
        (step.0, prev.1 + step.1)
    }
}

/// Law: under Anarchy, a sequence of submissions emits exactly one decision
/// per submission, in submission order, each deciding the submitted command.
pub proof fn anarchy_emits_every_command(inputs: Seq<(Command, u64)>)
    ensures
        strategy_run(StrategyView::Anarchy, inputs).0 == StrategyView::Anarchy,
        strategy_run(StrategyView::Anarchy, inputs).1 =~= inputs.map_values(
            |p: (Command, u64)| VoteSystemUpdateView::Decision(p.0),
        ),
    decreases inputs.len(),
{
    if inputs.len() == 0 {
    } else {
        anarchy_emits_every_command(inputs.drop_last());
        assert(inputs.map_values(|p: (Command, u64)| VoteSystemUpdateView::Decision(p.0))
            =~= inputs.drop_last().map_values(
            |p: (Command, u64)| VoteSystemUpdateView::Decision(p.0),
        ).push(VoteSystemUpdateView::Decision(inputs.last().0)));
    }
}

/// Law: under Democracy, a sequence of submissions emits no decision at all —
/// only snapshots — and the tally afterwards holds exactly the submitted
/// commands, on top of what it already held.
pub proof fn democracy_tallies_every_vote(t0: Multiset<Command>, inputs: Seq<(Command, u64)>)
    requires
        t0.len() + inputs.len() < u64::MAX,
    ensures
        strategy_run(StrategyView::Democracy(t0), inputs).0 =~= StrategyView::Democracy(
            t0.add(inputs.map_values(|p: (Command, u64)| p.0).to_multiset()),
        ),
        forall|i: int|
            0 <= i < strategy_run(StrategyView::Democracy(t0), inputs).1.len() ==> !(strategy_run(
                StrategyView::Democracy(t0),
                inputs,
            ).1[i] is Decision),
    decreases inputs.len(),
{
    broadcast use vstd::seq_lib::group_to_multiset_ensures;

    let cmds = inputs.map_values(|p: (Command, u64)| p.0);
    if inputs.len() == 0 {
        assert(cmds.to_multiset().len() == 0);
        assert(cmds.to_multiset() =~= Multiset::<Command>::empty());
        assert(t0.add(cmds.to_multiset()) =~= t0);
    } else {
        democracy_tallies_every_vote(t0, inputs.drop_last());
        let prev_cmds = inputs.drop_last().map_values(|p: (Command, u64)| p.0);
        let last = inputs.last();
        assert(cmds =~= prev_cmds.push(last.0));
        assert(prev_cmds.push(last.0).to_multiset() =~= prev_cmds.to_multiset().insert(last.0));
        let t_prev = t0.add(prev_cmds.to_multiset());
        assert(prev_cmds.to_multiset().len() == prev_cmds.len());
        assert(t_prev.len() == t0.len() + prev_cmds.to_multiset().len());
        assert(t_prev.len() < u64::MAX);
        assert(t_prev.insert(last.0) =~= t0.add(cmds.to_multiset()));
    }
}

/// Law: an epoch-ending tick emits at most one decision.
pub proof fn democracy_decides_at_most_once(t: Multiset<Command>, ev: Seq<VoteSystemUpdateView>)
    requires
        decision_events(t, ev),
    ensures
        ev.len() <= 1,
        t.len() == 0 ==> ev.len() == 0,
{
}

/// Law: a decision an epoch-ending tick emits stands alone, and its command's
/// count in the epoch's final tally is the maximum count.
pub proof fn democracy_decides_a_majority(
    t: Multiset<Command>,
    ev: Seq<VoteSystemUpdateView>,
    c: Command,
    i: int,
)
    requires
        decision_events(t, ev),
        0 <= i < ev.len(),
        ev[i] == VoteSystemUpdateView::Decision(c),
    ensures
        ev.len() == 1,
        i == 0,
        is_max_count(t, c),
{
    assert(t.len() != 0);
    let c2 = choose|x: Command|
        is_max_count(t, x) && ev =~= seq![VoteSystemUpdateView::Decision(x)];
    assert(ev[0] == VoteSystemUpdateView::Decision(c2));
}

/// The counter's state after a whole sequence of votes.
pub open spec fn counter_run(cv: VoteCounterView, keys: Seq<VoteSystem>) -> VoteCounterView
    decreases keys.len(),
{
    if keys.len() == 0 {
        cv
    } else {
        counter_vote_step(counter_run(cv, keys.drop_last()), keys.last()).0
    }
}

/// Law: the counter's tally after any sequence of votes holds exactly those
/// votes, on top of what it already held; so whatever `winner()` then
/// reports holds a count no smaller than any key's number of votes, and
/// reports nothing only when no vote was ever counted.
pub proof fn counter_counts_every_vote(cv: VoteCounterView, keys: Seq<VoteSystem>)
    requires
        cv.tally.len() + keys.len() < u64::MAX,
    ensures
        counter_run(cv, keys).tally =~= cv.tally.add(keys.to_multiset()),
        counter_run(cv, keys).reference == cv.reference,
    decreases keys.len(),
{
    broadcast use vstd::seq_lib::group_to_multiset_ensures;

    if keys.len() == 0 {
        assert(keys.to_multiset().len() == 0);
        assert(keys.to_multiset() =~= Multiset::<VoteSystem>::empty());
        assert(cv.tally.add(keys.to_multiset()) =~= cv.tally);
    } else {
        counter_counts_every_vote(cv, keys.drop_last());
        let prev = counter_run(cv, keys.drop_last());
        assert(keys.drop_last().to_multiset().len() == keys.drop_last().len());
        assert(keys =~= keys.drop_last().push(keys.last()));
        assert(keys.drop_last().push(keys.last()).to_multiset() =~= keys.drop_last().to_multiset()
            .insert(keys.last()));
        assert(prev.tally.insert(keys.last()) =~= cv.tally.add(keys.to_multiset()));
    }
}

/// The mediator's state and emitted events after a whole sequence of received
/// inputs, each a command, its submitter, and the epoch seconds remaining.
pub open spec fn mediator_run_inputs(
    m: MediatorView,
    inputs: Seq<(Command, Seq<char>, u64)>,
) -> (MediatorView, Seq<UpdateView>)
    decreases inputs.len(),
{
    if inputs.len() == 0 {
        (m, Seq::empty())
    } else {
        let prev = mediator_run_inputs(m, inputs.drop_last());
        let last = inputs.last();
        let step = step_input(prev.0, last.0, last.1, last.2);
        (step.0, prev.1 + step.1)
    }
}

/// The republished inputs among a stretch of update-stream events.
pub open spec fn input_events(s: Seq<UpdateView>) -> Seq<UpdateView> {
    s.filter(|u: UpdateView| u is Input)
}

proof fn lemma_filter_pair(x: UpdateView, y: UpdateView, p: spec_fn(UpdateView) -> bool)
    requires
        p(x),
        !p(y),
    ensures
        seq![x, y].filter(p) =~= seq![x],
{
    assert(seq![x] =~= Seq::<UpdateView>::empty().push(x));
    Seq::<UpdateView>::empty().lemma_filter_push(x, p);
    assert(seq![x, y] =~= seq![x].push(y));
    seq![x].lemma_filter_push(y, p);
}

/// Law: a sequence of received inputs is republished as exactly one `Input`
/// event per input, in receipt order, whatever vote system is active and
/// however it changes the state.
pub proof fn inputs_are_republished(m: MediatorView, inputs: Seq<(Command, Seq<char>, u64)>)
    ensures
        input_events(mediator_run_inputs(m, inputs).1) =~= inputs.map_values(
            |p: (Command, Seq<char>, u64)| UpdateView::Input(p.0, p.1),
        ),
    decreases inputs.len(),
{
    let p = |u: UpdateView| u is Input;
    if inputs.len() == 0 {
        assert(Seq::<UpdateView>::empty().filter(p) =~= Seq::<UpdateView>::empty());
    } else {
        inputs_are_republished(m, inputs.drop_last());
        let prev = mediator_run_inputs(m, inputs.drop_last());
        let last = inputs.last();
        let step = step_input(prev.0, last.0, last.1, last.2);
        let inp_ev = UpdateView::Input(last.0, last.1);
        assert(step.1.len() == 2 && step.1[0] == inp_ev && !p(step.1[1]));
        assert(step.1 =~= seq![step.1[0], step.1[1]]);
        lemma_filter_pair(step.1[0], step.1[1], p);
        Seq::filter_distributes_over_add(prev.1, step.1, p);
        assert(inputs.map_values(|q: (Command, Seq<char>, u64)| UpdateView::Input(q.0, q.1))
            =~= inputs.drop_last().map_values(
            |q: (Command, Seq<char>, u64)| UpdateView::Input(q.0, q.1),
        ).push(inp_ev));
    }
}

/// Law: when one system holds a strict majority of the meta-votes and is not
/// already active, the policy-switch tick must switch to it: it announces
/// the change and installs that system's fresh strategy, so the old strategy
/// contributes nothing afterwards.
pub proof fn strict_majority_switches(
    pre: MediatorView,
    post: MediatorView,
    ev: Seq<UpdateView>,
    s: VoteSystem,
)
    requires
        change_tick_rel(pre, post, ev),
        s != pre.system,
        forall|k: VoteSystem|
            k != s ==> pre.counter.tally.count(k) < pre.counter.tally.count(s),
    ensures
        post.system == s,
        post.strategy =~= fresh_strategy(s),
        ev =~= seq![
            UpdateView::VoteSystemPercentageChange(None),
            UpdateView::VoteSystemChange(s),
        ],
{
    let t = pre.counter.tally;
    let w = choose|w: Option<VoteSystem>|
        #[trigger] winner_opt(t, w) && change_tick_with(pre, w, post, ev);
    let other: VoteSystem = if s == VoteSystem::Anarchy {
        VoteSystem::Democracy
    } else {
        VoteSystem::Anarchy
    };
    assert(t.count(other) < t.count(s));
    match w {
        None => {
            assert(t.len() == 0);
            assert(t.count(s) <= t.len());
            assert(false);
        },
        Some(k) => {
            if k != s {
                assert(t.count(s) <= t.count(k));
                assert(false);
            }
        },
    }
}

} // verus!
