use tpp_core::command::{Button, Command};
use tpp_core::command_input::Input;
use tpp_core::mediator::{MediatedDecision, Mediator, MediatorUpdate, Percentage};
use tpp_core::vote_system::VoteSystem;

fn kind_of(u: &MediatorUpdate) -> String {
    match u {
        MediatorUpdate::VoteSystemChange(s) => format!("change {:?}", s),
        MediatorUpdate::VoteSystemChangeSecsRemaining(t) => format!("secs {}", t),
        MediatorUpdate::VoteSystemPercentageChange(p) => format!("pct {:?}", p),
        MediatorUpdate::VoteSystemDemocracyPartialResults(t, _) => format!("partial {}", t),
        MediatorUpdate::Input(Input(c, user)) => format!("input {:?} {}", c, user),
        MediatorUpdate::Decision(MediatedDecision::Command(c)) => format!("decision {:?}", c),
    }
}

#[test]
fn bootstrap_announces_the_initial_system_first() {
    let (_m, updates) = Mediator::create(VoteSystem::Democracy);
    assert_eq!(updates.len(), 1);
    match &updates[0] {
        MediatorUpdate::VoteSystemChange(s) => assert_eq!(*s, VoteSystem::Democracy),
        _ => panic!("the first event announces the initial system"),
    }
}

#[test]
fn anarchy_input_becomes_a_decision() {
    let (mut m, mut updates) = Mediator::create(VoteSystem::Anarchy);
    m.handle_input(Input(Command::Action(Button::Up), "x".to_string()), 30, &mut updates);
    let kinds: Vec<String> = updates.iter().map(kind_of).collect();
    assert_eq!(
        kinds,
        vec![
            format!("change {:?}", VoteSystem::Anarchy),
            format!("input {:?} x", Command::Action(Button::Up)),
            format!("decision {:?}", Command::Action(Button::Up)),
        ]
    );
}

#[test]
fn meta_votes_publish_the_anarchy_share() {
    let (mut m, mut updates) = Mediator::create(VoteSystem::Anarchy);
    let base = updates.len();
    m.handle_input(
        Input(Command::ChangeVoteSystem(VoteSystem::Democracy), "alice".to_string()),
        30,
        &mut updates,
    );
    assert_eq!(updates.len(), base + 2);
    match &updates[base + 1] {
        MediatorUpdate::VoteSystemPercentageChange(Some(p)) => {
            assert_eq!(*p, Percentage { count: 0, total: 1 });
        }
        _ => panic!("a meta-vote publishes the reference share"),
    }
}

#[test]
fn every_input_is_republished_in_order() {
    let (mut m, mut updates) = Mediator::create(VoteSystem::Anarchy);
    let submitted = [
        (Command::Action(Button::Up), "u1"),
        (Command::ChangeVoteSystem(VoteSystem::Democracy), "u2"),
        (Command::Action(Button::A), "u3"),
        (Command::ChangeVoteSystem(VoteSystem::Democracy), "u4"),
    ];
    for (c, user) in submitted.iter() {
        m.handle_input(Input(*c, user.to_string()), 30, &mut updates);
    }
    m.vote_system_change_tick(&mut updates);
    for (c, user) in submitted.iter() {
        m.handle_input(Input(*c, user.to_string()), 30, &mut updates);
    }
    let inputs: Vec<String> = updates
        .iter()
        .filter_map(|u| match u {
            MediatorUpdate::Input(Input(c, user)) => Some(format!("{:?} {}", c, user)),
            _ => None,
        })
        .collect();
    let expected: Vec<String> = submitted
        .iter()
        .chain(submitted.iter())
        .map(|(c, user)| format!("{:?} {}", c, user))
        .collect();
    assert_eq!(inputs, expected);
}

#[test]
fn events_published_before_a_switch_stay_in_place() {
    let (mut m, mut updates) = Mediator::create(VoteSystem::Anarchy);
    m.handle_input(Input(Command::Action(Button::Up), "x".to_string()), 30, &mut updates);
    m.handle_input(
        Input(Command::ChangeVoteSystem(VoteSystem::Democracy), "y".to_string()),
        30,
        &mut updates,
    );
    let before: Vec<String> = updates.iter().map(kind_of).collect();
    m.vote_system_change_tick(&mut updates);
    assert!(updates.len() > before.len());
    let after: Vec<String> = updates.iter().take(before.len()).map(kind_of).collect();
    assert_eq!(before, after);
}

#[test]
fn democracy_epoch_partial_results_and_decision() {
    let (mut m, mut updates) = Mediator::create(VoteSystem::Democracy);
    let a = Command::Action(Button::A);
    let b = Command::Action(Button::B);
    for (c, user, secs) in
        [(a, "u1", 29u64), (a, "u2", 28), (a, "u3", 27), (b, "u4", 26)].iter()
    {
        m.handle_input(Input(*c, user.to_string()), *secs, &mut updates);
    }
    let standings: Vec<(u64, u64, u64)> = updates
        .iter()
        .filter_map(|u| match u {
            MediatorUpdate::VoteSystemDemocracyPartialResults(t, snapshot) => {
                Some((*t, snapshot.count(&a), snapshot.count(&b)))
            }
            _ => None,
        })
        .collect();
    assert_eq!(standings, vec![(29, 1, 0), (28, 2, 0), (27, 3, 0), (26, 3, 1)]);
    let published_before = updates.len();
    m.decision_tick(&mut updates);
    assert_eq!(updates.len(), published_before + 1);
    match &updates[published_before] {
        MediatorUpdate::Decision(MediatedDecision::Command(c)) => assert_eq!(*c, a),
        _ => panic!("the epoch end emits the majority decision"),
    }
    m.partial_results_tick(30, &mut updates);
    match &updates[published_before + 1] {
        MediatorUpdate::VoteSystemDemocracyPartialResults(t, snapshot) => {
            assert_eq!(*t, 30);
            assert_eq!(snapshot.count(&a), 0);
            assert_eq!(snapshot.count(&b), 0);
        }
        _ => panic!("the new epoch starts from an empty tally"),
    }
}

#[test]
fn meta_majority_switches_the_system() {
    let (mut m, mut updates) = Mediator::create(VoteSystem::Anarchy);
    m.handle_input(
        Input(Command::ChangeVoteSystem(VoteSystem::Democracy), "alice".to_string()),
        30,
        &mut updates,
    );
    m.handle_input(
        Input(Command::ChangeVoteSystem(VoteSystem::Democracy), "bob".to_string()),
        30,
        &mut updates,
    );
    m.handle_input(
        Input(Command::ChangeVoteSystem(VoteSystem::Anarchy), "carol".to_string()),
        30,
        &mut updates,
    );
    let published_before = updates.len();
    m.vote_system_change_tick(&mut updates);
    let appended: Vec<String> = updates.iter().skip(published_before).map(kind_of).collect();
    assert_eq!(
        appended,
        vec![
            "pct None".to_string(),
            format!("change {:?}", VoteSystem::Democracy),
        ]
    );
    let published_before = updates.len();
    m.handle_input(Input(Command::Action(Button::Up), "dave".to_string()), 30, &mut updates);
    let appended: Vec<String> = updates.iter().skip(published_before).map(kind_of).collect();
    assert_eq!(appended.len(), 2);
    assert_eq!(appended[0], format!("input {:?} dave", Command::Action(Button::Up)));
    assert_eq!(appended[1], "partial 30".to_string());
}

#[test]
fn a_tick_without_winner_only_resets_the_meta_tally() {
    let (mut m, mut updates) = Mediator::create(VoteSystem::Anarchy);
    let published_before = updates.len();
    m.vote_system_change_tick(&mut updates);
    let appended: Vec<String> = updates.iter().skip(published_before).map(kind_of).collect();
    assert_eq!(appended, vec!["pct None".to_string()]);
}

#[test]
fn the_countdown_tick_publishes_the_seconds() {
    let (m, mut updates) = Mediator::create(VoteSystem::Anarchy);
    let published_before = updates.len();
    m.secs_remaining_tick(21, &mut updates);
    assert_eq!(updates.len(), published_before + 1);
    match &updates[published_before] {
        MediatorUpdate::VoteSystemChangeSecsRemaining(t) => assert_eq!(*t, 21),
        _ => panic!("the countdown tick publishes the remaining seconds"),
    }
}
