use tpp_core::command::{Button, Command};
use tpp_core::vote_system::VoteSystem;

#[test]
fn button_tokens_parse() {
    assert_eq!(Button::from_string("up".to_string()), Some(Button::Up));
    assert_eq!(Button::from_string("down".to_string()), Some(Button::Down));
    assert_eq!(Button::from_string("left".to_string()), Some(Button::Left));
    assert_eq!(Button::from_string("right".to_string()), Some(Button::Right));
    assert_eq!(Button::from_string("a".to_string()), Some(Button::A));
    assert_eq!(Button::from_string("b".to_string()), Some(Button::B));
    assert_eq!(Button::from_string("select".to_string()), Some(Button::Select));
    assert_eq!(Button::from_string("start".to_string()), Some(Button::Start));
    assert_eq!(Button::from_string("l".to_string()), Some(Button::L));
    assert_eq!(Button::from_string("r".to_string()), Some(Button::R));
}

#[test]
fn unknown_button_tokens_parse_to_nothing() {
    assert_eq!(Button::from_string("".to_string()), None);
    assert_eq!(Button::from_string("Up".to_string()), None);
    assert_eq!(Button::from_string("UP".to_string()), None);
    assert_eq!(Button::from_string("upp".to_string()), None);
    assert_eq!(Button::from_string("x".to_string()), None);
    assert_eq!(Button::from_string("anarchy".to_string()), None);
}

#[test]
fn command_tokens_parse() {
    assert_eq!(
        Command::from_string("anarchy".to_string()),
        Some(Command::ChangeVoteSystem(VoteSystem::Anarchy))
    );
    assert_eq!(
        Command::from_string("democracy".to_string()),
        Some(Command::ChangeVoteSystem(VoteSystem::Democracy))
    );
    assert_eq!(
        Command::from_string("start".to_string()),
        Some(Command::Action(Button::Start))
    );
    assert_eq!(Command::from_string("a".to_string()), Some(Command::Action(Button::A)));
}

#[test]
fn unknown_command_tokens_parse_to_nothing() {
    assert_eq!(Command::from_string("".to_string()), None);
    assert_eq!(Command::from_string("Anarchy".to_string()), None);
    assert_eq!(Command::from_string("monarchy".to_string()), None);
    assert_eq!(Command::from_string("up down".to_string()), None);
}
