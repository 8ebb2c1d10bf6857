//! A host-side number-guessing game that a sandboxed player drives through
//! two imported calls, with the decisions of the host and of the reference
//! player proved against their contracts.

pub mod game;
pub mod host;
pub mod player;
