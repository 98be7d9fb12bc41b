use tpp_core::mediator::{MediatorUpdate, Percentage};
use tpp_core::vote_counter::VoteCounter;
use tpp_core::vote_system::VoteSystem;

#[test]
fn winner_has_a_maximal_count() {
    let mut counter = VoteCounter::new(VoteSystem::Anarchy);
    let mut out: Vec<MediatorUpdate> = Vec::new();
    counter.vote(VoteSystem::Democracy, &mut out);
    counter.vote(VoteSystem::Anarchy, &mut out);
    counter.vote(VoteSystem::Democracy, &mut out);
    assert_eq!(counter.winner(), Some(VoteSystem::Democracy));
    assert_eq!(
        counter.percentage(VoteSystem::Democracy),
        Percentage { count: 2, total: 3 }
    );
    assert_eq!(
        counter.percentage(VoteSystem::Anarchy),
        Percentage { count: 1, total: 3 }
    );
}

#[test]
fn empty_counter_has_no_winner() {
    let counter = VoteCounter::new(VoteSystem::Anarchy);
    assert_eq!(counter.winner(), None);
    assert_eq!(counter.percentage(VoteSystem::Anarchy), Percentage { count: 0, total: 0 });
}

#[test]
fn winner_on_a_tie_is_one_of_the_maximal_keys() {
    let mut counter = VoteCounter::new(VoteSystem::Anarchy);
    let mut out: Vec<MediatorUpdate> = Vec::new();
    counter.vote(VoteSystem::Democracy, &mut out);
    counter.vote(VoteSystem::Anarchy, &mut out);
    let w = counter.winner().expect("two votes were cast");
    assert_eq!(counter.percentage(w).count, 1);
}

#[test]
fn votes_publish_the_reference_share() {
    let mut counter = VoteCounter::new(VoteSystem::Anarchy);
    let mut out: Vec<MediatorUpdate> = Vec::new();
    counter.vote(VoteSystem::Democracy, &mut out);
    counter.vote(VoteSystem::Anarchy, &mut out);
    assert_eq!(out.len(), 2);
    match &out[0] {
        MediatorUpdate::VoteSystemPercentageChange(Some(p)) => {
            assert_eq!(*p, Percentage { count: 0, total: 1 });
        }
        _ => panic!("expected a percentage change with data"),
    }
    match &out[1] {
        MediatorUpdate::VoteSystemPercentageChange(Some(p)) => {
            assert_eq!(*p, Percentage { count: 1, total: 2 });
        }
        _ => panic!("expected a percentage change with data"),
    }
}

#[test]
fn reset_clears_the_tally_and_publishes_no_data() {
    let mut counter = VoteCounter::new(VoteSystem::Anarchy);
    let mut out: Vec<MediatorUpdate> = Vec::new();
    counter.vote(VoteSystem::Democracy, &mut out);
    counter.vote(VoteSystem::Democracy, &mut out);
    let published_before = out.len();
    counter.reset(&mut out);
    assert_eq!(counter.winner(), None);
    assert_eq!(counter.percentage(VoteSystem::Democracy), Percentage { count: 0, total: 0 });
    assert_eq!(out.len(), published_before + 1);
    match &out[published_before] {
        MediatorUpdate::VoteSystemPercentageChange(None) => {}
        _ => panic!("expected a percentage change without data"),
    }
}
