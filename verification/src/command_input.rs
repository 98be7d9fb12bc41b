//! Inputs: a parsed command together with the identity of its submitter.

use crate::command::Command;
use vstd::prelude::*;

verus! {

/// A command and the display name of the user who submitted it.
#[derive(Debug, Clone)]
pub struct Input(pub Command, pub String);

impl View for Input {
    type V = (Command, Seq<char>);

    open spec fn view(&self) -> (Command, Seq<char>) {
        (self.0, self.1@)
    }
}

} // verus!
