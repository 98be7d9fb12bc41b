//! Decision aggregation for a crowd-driven game controller.
//!
//! Many users submit button presses and vote-system votes concurrently; this
//! library turns them into one serialized stream of updates and decisions,
//! under a replaceable decision policy (Anarchy or Democracy) that the same
//! users can change at runtime by meta-vote.  Every component states its
//! behaviour in its contract, and `laws` proves what holds of whole runs.

pub mod command;
pub mod command_input;
pub mod freq;
pub mod laws;
pub mod mediator;
pub mod stream;
pub mod vote_counter;
pub mod vote_system;
