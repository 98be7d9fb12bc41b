//! User commands: button presses and requests to change the vote system.

use crate::vote_system::VoteSystem;
use vstd::prelude::*;

verus! {

/// One of the ten physical controls of the driven device.
#[derive(Debug, Clone, Copy, PartialEq, Eq, Hash, Structural)]
pub enum Button {
    Up,
    Down,
    Left,
    Right,
    A,
    B,
    Select,
    Start,
    L,
    R,
}

/// Relies on `str`'s `PartialEq`: two string slices compare equal exactly when
/// their character sequences are equal.
#[verifier::external_body]
fn str_eq(a: &str, b: &str) -> (r: bool)
    ensures
        r == (a@ == b@),
{
    a == b
}

/// The button named by a lower-case token, if any.
pub open spec fn button_from_chars(s: Seq<char>) -> Option<Button> {
    if s == "up"@ {
        Some(Button::Up)
    } else if s == "down"@ {
        Some(Button::Down)
    } else if s == "left"@ {
        Some(Button::Left)
    } else if s == "right"@ {
        Some(Button::Right)
    } else if s == "a"@ {
        Some(Button::A)
    } else if s == "b"@ {
        Some(Button::B)
    } else if s == "select"@ {
        Some(Button::Select)
    } else if s == "start"@ {
        Some(Button::Start)
    } else if s == "l"@ {
        Some(Button::L)
    } else if s == "r"@ {
        Some(Button::R)
    } else {
        None
    }
}

impl Button {
    /// Parse a lower-case button token; any other text is no button.
    pub fn from_string(s: String) -> (r: Option<Button>)
        ensures
            r == button_from_chars(s@),
    {
        let t = s.as_str();
        if str_eq(t, "up") {
            Some(Button::Up)
        } else if str_eq(t, "down") {
            Some(Button::Down)
        } else if str_eq(t, "left") {
            Some(Button::Left)
        } else if str_eq(t, "right") {
            Some(Button::Right)
        } else if str_eq(t, "a") {
            Some(Button::A)
        } else if str_eq(t, "b") {
            Some(Button::B)
        } else if str_eq(t, "select") {
            Some(Button::Select)
        } else if str_eq(t, "start") {
            Some(Button::Start)
        } else if str_eq(t, "l") {
            Some(Button::L)
        } else if str_eq(t, "r") {
            Some(Button::R)
        } else {
            None
        }
    }
}

/// A parsed user instruction: either a vote to change the active vote system
/// or a button action.
#[derive(Debug, Clone, Copy, PartialEq, Eq, Hash, Structural)]
pub enum Command {
    ChangeVoteSystem(VoteSystem),
    Action(Button),
}

/// The command named by a lower-case token, if any: a vote-system name, a
/// button name, or nothing.
pub open spec fn command_from_chars(s: Seq<char>) -> Option<Command> {
    if s == "anarchy"@ {
        Some(Command::ChangeVoteSystem(VoteSystem::Anarchy))
    } else if s == "democracy"@ {
        Some(Command::ChangeVoteSystem(VoteSystem::Democracy))
    } else {
        match button_from_chars(s) {
            Some(button) => Some(Command::Action(button)),
            None => None,
        }
    }
}

impl Command {
    /// Parse a lower-case command token; any other text is no command.
    pub fn from_string(s: String) -> (r: Option<Command>)
        ensures
            r == command_from_chars(s@),
    {
        if str_eq(s.as_str(), "anarchy") {
            Some(Command::ChangeVoteSystem(VoteSystem::Anarchy))
        } else if str_eq(s.as_str(), "democracy") {
            Some(Command::ChangeVoteSystem(VoteSystem::Democracy))
        } else {
            match Button::from_string(s) {
                Some(button) => Some(Command::Action(button)),
                None => None,
            }
        }
    }
}

} // verus!
