//! A fixed-capacity leaderboard of paying players.
//!
//! Players join by paying an entry fee; the board keeps at most five of them,
//! replacing the lowest scorer once it is full. Each paid entry allows exactly
//! one score submission.

pub mod laws;
pub mod leaderboard;
pub mod player;
pub mod program;

pub use leaderboard::{Leaderboard, CAPACITY};
pub use player::{Player, Pubkey, RockDestroyerError};

pub use program::{add_player_to_leaderboard, initialize_leaderboard, new_game};
