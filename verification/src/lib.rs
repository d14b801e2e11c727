//! Verified game logic: the engagement core of a turret, and the spell book and input
//! handling of a spelling game.

pub mod spell_it;
pub mod turret;
