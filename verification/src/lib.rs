pub mod board;
pub mod challenge;
pub mod config;
pub mod effects;
pub mod engine;
pub mod external;
pub mod stream;
pub mod collections;
pub mod command;
pub mod error;
pub mod events;
pub mod game;
pub mod model;
pub mod settings;
pub mod votes;
pub mod text;

use vstd::prelude::*;

verus! {

} // verus!
