//! The spelling game: what spells there are, and how typed input is cleaned.

pub mod systems;
pub mod world_definition;
