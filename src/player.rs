use vstd::prelude::*;

verus! {

/// A 32-byte public key identifying a player.
#[derive(Clone, Copy, Debug, PartialEq, Eq, Hash)]
pub struct Pubkey {
    pub bytes: [u8; 32],
}

impl View for Pubkey {
    type V = Seq<u8>;

    open spec fn view(&self) -> Seq<u8> {
        self.bytes@
    }
}

impl Pubkey {
    pub fn new(bytes: [u8; 32]) -> (r: Pubkey)
        ensures
            r.bytes == bytes,
    {
        Pubkey { bytes }
    }

    pub fn to_bytes(&self) -> (r: [u8; 32])
        ensures
            r == self.bytes,
    {
        self.bytes
    }

    /// Byte-wise comparison of two keys.
    pub fn same_as(&self, other: &Pubkey) -> (r: bool)
        ensures
            r == (self@ == other@),
    {
        let mut i: usize = 0;
        while i < 32
            invariant
                0 <= i <= 32,
                self@.len() == 32,
                other@.len() == 32,
                forall|j: int| 0 <= j < i ==> self@[j] == other@[j],
            decreases 32 - i,
        {
            if self.bytes[i] != other.bytes[i] {
                return false;
            }
            i = i + 1;
        }
        assert(self@ =~= other@);
        true
    }
}

/// One entry of the leaderboard.
#[derive(Clone, Debug, PartialEq, Eq)]
pub struct Player {
    pub username: String,
    pub pubkey: Pubkey,
    pub score: u64,
    /// Whether the player holds an unused paid entry, i.e. may submit a score.
    pub has_paid: bool,
}

impl Player {
    /// The record of a player who has just paid: score zero, one submission allowed.
    pub fn new(username: String, pubkey: Pubkey) -> (r: Player)
        ensures
            r == fresh_player(username, pubkey),
    {
        Player { username, pubkey, score: 0, has_paid: true }
    }
}

/// The record that joining with `username` and `pubkey` creates.
pub open spec fn fresh_player(username: String, pubkey: Pubkey) -> Player {
    Player { username, pubkey, score: 0, has_paid: true }
}

/// Why a score submission was refused.
#[derive(Clone, Copy, Debug, PartialEq, Eq, Structural)]
pub enum RockDestroyerError {
    /// No entry on the board has the given key.
    PlayerNotFound,
    /// The entry exists but its paid submission has been used.
    PlayerNotPaid,
}

} // verus!
