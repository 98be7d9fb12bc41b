use tpp_core::command::{Button, Command};
use tpp_core::vote_system::{
    AnarchyCreator, DemocracyCreator, VoteSystem, VoteSystemUpdate,
};

#[test]
fn anarchy_decides_every_command_in_order() {
    let creator = AnarchyCreator {};
    let mut anarchy = creator.create();
    let mut out: Vec<VoteSystemUpdate> = Vec::new();
    let submitted = [
        Command::Action(Button::Up),
        Command::Action(Button::A),
        Command::Action(Button::Start),
    ];
    for c in submitted.iter() {
        anarchy.call(*c, 30, &mut out);
    }
    assert_eq!(out.len(), submitted.len());
    for (i, c) in submitted.iter().enumerate() {
        match &out[i] {
            VoteSystemUpdate::Decision(d) => assert_eq!(d, c),
            _ => panic!("anarchy only emits decisions"),
        }
    }
}

#[test]
fn democracy_publishes_growing_standings() {
    let creator = DemocracyCreator {};
    let mut democracy = creator.create();
    let mut out: Vec<VoteSystemUpdate> = Vec::new();
    let a = Command::Action(Button::A);
    let b = Command::Action(Button::B);
    democracy.call(a, 29, &mut out);
    democracy.call(a, 27, &mut out);
    democracy.call(b, 25, &mut out);
    assert_eq!(out.len(), 3);
    let expected = [(29u64, 1u64, 0u64), (27, 2, 0), (25, 2, 1)];
    for (i, (secs, count_a, count_b)) in expected.iter().enumerate() {
        match &out[i] {
            VoteSystemUpdate::DemocracyPartialResults(t, snapshot) => {
                assert_eq!(t, secs);
                assert_eq!(snapshot.count(&a), *count_a);
                assert_eq!(snapshot.count(&b), *count_b);
            }
            _ => panic!("no decision may be emitted before the epoch ends"),
        }
    }
}

#[test]
fn democracy_snapshots_are_frozen_copies() {
    let creator = DemocracyCreator {};
    let mut democracy = creator.create();
    let mut out: Vec<VoteSystemUpdate> = Vec::new();
    let a = Command::Action(Button::A);
    democracy.call(a, 30, &mut out);
    democracy.call(a, 28, &mut out);
    match &out[0] {
        VoteSystemUpdate::DemocracyPartialResults(_, snapshot) => {
            assert_eq!(snapshot.count(&a), 1);
        }
        _ => panic!("expected partial results"),
    }
}

#[test]
fn democracy_decides_the_majority_at_epoch_end() {
    let creator = DemocracyCreator {};
    let mut democracy = creator.create();
    let mut out: Vec<VoteSystemUpdate> = Vec::new();
    let a = Command::Action(Button::A);
    let b = Command::Action(Button::B);
    democracy.call(a, 29, &mut out);
    democracy.call(a, 28, &mut out);
    democracy.call(a, 27, &mut out);
    democracy.call(b, 26, &mut out);
    let published_before = out.len();
    democracy.decision_tick(&mut out);
    assert_eq!(out.len(), published_before + 1);
    match &out[published_before] {
        VoteSystemUpdate::Decision(d) => assert_eq!(*d, a),
        _ => panic!("the epoch end emits a decision"),
    }
    democracy.partial_results(30, &mut out);
    match &out[published_before + 1] {
        VoteSystemUpdate::DemocracyPartialResults(_, snapshot) => {
            assert_eq!(snapshot.count(&a), 0);
            assert_eq!(snapshot.count(&b), 0);
        }
        _ => panic!("expected partial results"),
    }
}

#[test]
fn democracy_tie_decides_one_of_the_maximal_commands() {
    let creator = DemocracyCreator {};
    let mut democracy = creator.create();
    let mut out: Vec<VoteSystemUpdate> = Vec::new();
    let a = Command::Action(Button::A);
    let b = Command::Action(Button::B);
    democracy.call(a, 29, &mut out);
    democracy.call(b, 28, &mut out);
    let published_before = out.len();
    democracy.decision_tick(&mut out);
    assert_eq!(out.len(), published_before + 1);
    match &out[published_before] {
        VoteSystemUpdate::Decision(d) => assert!(*d == a || *d == b),
        _ => panic!("the epoch end emits a decision"),
    }
}

#[test]
fn democracy_is_silent_on_an_empty_epoch() {
    let creator = DemocracyCreator {};
    let mut democracy = creator.create();
    let mut out: Vec<VoteSystemUpdate> = Vec::new();
    democracy.decision_tick(&mut out);
    assert_eq!(out.len(), 0);
}

#[test]
fn anarchy_ignores_ticks() {
    let mut anarchy = VoteSystem::Anarchy.creator().create();
    let mut out: Vec<VoteSystemUpdate> = Vec::new();
    anarchy.decision_tick(&mut out);
    anarchy.partial_results(30, &mut out);
    assert_eq!(out.len(), 0);
}
