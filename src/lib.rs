//! Score tracking for competitive games: per-player score ledgers with a
//! windowed growth policy, bounded top-K rankings, and a multi-party merge
//! approval protocol.

pub mod key;
pub mod error;
pub mod score;
pub mod capacity;
pub mod ledger;
pub mod ranking;
pub mod merge;
pub mod fields;
pub mod leaderboard;
pub mod submit;
pub mod game_types;
pub mod achievement;
pub mod game;
pub mod player;
pub mod reward;
pub mod metadata;
