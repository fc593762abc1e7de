use crate::leaderboard::{after_add, after_update, Leaderboard};
use crate::player::{fresh_player, Player, Pubkey, RockDestroyerError};
use vstd::prelude::*;

verus! {

// The three instructions of the game. Checking signatures and moving the
// entry fee are the host's part and happen before these are called.

/// Resets the board to empty.
pub fn initialize_leaderboard(leaderboard: &mut Leaderboard) -> (r: Result<(), RockDestroyerError>)
    ensures
        final(leaderboard).wf(),
        final(leaderboard)@ == Seq::<Player>::empty(),
        r == Ok::<(), RockDestroyerError>(()),
{
    leaderboard.initialize()
}

/// Enters `user`, who has paid the entry fee, under `username`: score zero and
/// one score submission allowed.
pub fn new_game(leaderboard: &mut Leaderboard, username: String, user: Pubkey) -> (r: Result<(), RockDestroyerError>)
    requires
        old(leaderboard).wf(),
    ensures
        final(leaderboard).wf(),
        final(leaderboard)@ == after_add(old(leaderboard)@, fresh_player(username, user)),
        r == Ok::<(), RockDestroyerError>(()),
{
    let new_player = Player::new(username, user);
    leaderboard.add_player(new_player)
}

/// Submits `score` for `user`, using up the submission that their entry fee paid for.
pub fn add_player_to_leaderboard(leaderboard: &mut Leaderboard, user: &Pubkey, score: u64) -> (r: Result<(), RockDestroyerError>)
    requires
        old(leaderboard).wf(),
    ensures
        final(leaderboard).wf(),
        (final(leaderboard)@, r) == after_update(old(leaderboard)@, user@, score),
{
    leaderboard.update_score(user, score)
}

} // verus!
