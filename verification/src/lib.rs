//! A galaxy simulation: the topology of planets, the orchestrator's rules,
//! the explorers' state machine and the game loop's decisions.
use vstd::prelude::*;

pub mod bag;
pub mod dice;
pub mod explorer_core;
pub mod explorer_messages;
pub mod explorer_state;
pub mod galaxy_file;
pub mod game;
pub mod laws;
pub mod lookup_table;
pub mod orchestrator;
pub mod orchestrator_gui;
pub mod orchestrator_rules;
pub mod planet_lifecycle;
pub mod registry;
pub mod resources;
pub mod text;
pub mod topology;

verus! {

} // verus!
