//! A verified Pokémon-style battle engine: stat calculation, damage and
//! effect resolution, wild and player-versus-player turn state machines,
//! and the pure decision logic of the battle manager.

pub mod damage;
pub mod effects;
pub mod external;
pub mod manager;
pub mod monsters;
pub mod moves;
pub mod pvp;
pub mod state;
pub mod wild;
pub mod stats;

pub use stats::calculate_stats;
