use crate::player::{Player, Pubkey, RockDestroyerError};
use vstd::prelude::*;

verus! {

/// Number of entries the leaderboard holds at most.
pub const CAPACITY: usize = 5;

// ---------------------------------------------------------------------------
// The model: a leaderboard is the sequence of its entries, in insertion order.
// ---------------------------------------------------------------------------

/// Index of the first entry with the lowest score among the first `n` entries.
pub open spec fn min_score_index(s: Seq<Player>, n: int) -> int
    decreases n,
{
    if n <= 1 {
        0
    } else {
        let k = min_score_index(s, n - 1);
        if s[n - 1].score < s[k].score {
            n - 1
        } else {
            k
        }
    }
}

/// The entry that a full board gives up for a newcomer.
pub open spec fn eviction_index(s: Seq<Player>) -> int {
    min_score_index(s, s.len() as int)
}

/// `k` holds the lowest score of `s`, and no earlier entry has that score.
pub open spec fn is_first_min(s: Seq<Player>, k: int) -> bool {
    &&& 0 <= k < s.len()
    &&& forall|j: int| 0 <= j < s.len() ==> s[k].score <= #[trigger] s[j].score
    &&& forall|j: int| 0 <= j < k ==> s[k].score < #[trigger] s[j].score
}

/// The board after `p` joins: appended while there is room, otherwise it
/// takes the place of the first lowest scorer.
pub open spec fn after_add(s: Seq<Player>, p: Player) -> Seq<Player> {
    if s.len() < CAPACITY {
        s.push(p)
    } else {
        s.update(eviction_index(s), p)
    }
}

/// The board after the players of `ps` join one after the other.
pub open spec fn after_adds(s: Seq<Player>, ps: Seq<Player>) -> Seq<Player>
    decreases ps.len(),
{
    if ps.len() == 0 {
        s
    } else {
        after_add(after_adds(s, ps.drop_last()), ps.last())
    }
}

/// Index of the first entry at or after `i` whose key is `key`.
pub open spec fn find_from(s: Seq<Player>, key: Seq<u8>, i: int) -> Option<int>
    decreases s.len() - i,
{
    if i < 0 || i >= s.len() {
        None
    } else if s[i].pubkey@ == key {
        Some(i)
    } else {
        find_from(s, key, i + 1)
    }
}

/// Index of the first entry whose key is `key`, if any.
pub open spec fn find_player(s: Seq<Player>, key: Seq<u8>) -> Option<int> {
    find_from(s, key, 0)
}

/// `i` is the first entry of `s` with key `key`.
pub open spec fn is_first_match(s: Seq<Player>, key: Seq<u8>, i: int) -> bool {
    &&& 0 <= i < s.len()
    &&& s[i].pubkey@ == key
    &&& forall|j: int| 0 <= j < i ==> #[trigger] s[j].pubkey@ != key
}

/// An entry after its paid submission of `score` has been recorded.
pub open spec fn scored(p: Player, score: u64) -> Player {
    Player { username: p.username, pubkey: p.pubkey, score, has_paid: false }
}

/// The board and the outcome after the entry keyed `key` submits `score`.
pub open spec fn after_update(s: Seq<Player>, key: Seq<u8>, score: u64) -> (Seq<Player>, Result<(), RockDestroyerError>) {
    match find_player(s, key) {
        None => (s, Err(RockDestroyerError::PlayerNotFound)),
        Some(i) => if s[i].has_paid {
            (s.update(i, scored(s[i], score)), Ok(()))
        } else {
            (s, Err(RockDestroyerError::PlayerNotPaid))
        },
    }
}

/// A board holds at most `CAPACITY` entries.
pub open spec fn board_wf(s: Seq<Player>) -> bool {
    s.len() <= CAPACITY
}

// ---------------------------------------------------------------------------
// Facts about the model.
// ---------------------------------------------------------------------------

proof fn lemma_min_score_index(s: Seq<Player>, n: int)
    requires
        1 <= n <= s.len(),
    ensures
        is_first_min(s.take(n), min_score_index(s, n)),
    decreases n,
{
    if n > 1 {
        lemma_min_score_index(s, n - 1);
        assert(s.take(n - 1) =~= s.take(n).drop_last());
    }
}

/// The eviction index is the first entry with the lowest score.
pub proof fn lemma_eviction_index(s: Seq<Player>)
    requires
        s.len() > 0,
    ensures
        is_first_min(s, eviction_index(s)),
{
    lemma_min_score_index(s, s.len() as int);
    assert(s.take(s.len() as int) =~= s);
}

/// At most one index is the first lowest scorer.
pub proof fn lemma_first_min_unique(s: Seq<Player>, k1: int, k2: int)
    requires
        is_first_min(s, k1),
        is_first_min(s, k2),
    ensures
        k1 == k2,
{
    if k1 < k2 {
        assert(s[k2].score < s[k1].score);
    } else if k2 < k1 {
        assert(s[k1].score < s[k2].score);
    }
}

proof fn lemma_find_from(s: Seq<Player>, key: Seq<u8>, i: int)
    requires
        0 <= i,
        forall|j: int| 0 <= j < i && j < s.len() ==> #[trigger] s[j].pubkey@ != key,
    ensures
        match find_from(s, key, i) {
            None => forall|j: int| 0 <= j < s.len() ==> #[trigger] s[j].pubkey@ != key,
            Some(k) => is_first_match(s, key, k),
        },
    decreases s.len() - i,
{
    if i < s.len() && s[i].pubkey@ != key {
        lemma_find_from(s, key, i + 1);
    }
}

/// `find_player` gives the first entry with the key, or nothing when no
/// entry has it.
pub proof fn lemma_find_player(s: Seq<Player>, key: Seq<u8>)
    ensures
        match find_player(s, key) {
            None => forall|j: int| 0 <= j < s.len() ==> #[trigger] s[j].pubkey@ != key,
            Some(k) => is_first_match(s, key, k),
        },
{
    lemma_find_from(s, key, 0);
}

/// The first entry with a key is found.
pub proof fn lemma_find_first_match(s: Seq<Player>, key: Seq<u8>, i: int)
    requires
        is_first_match(s, key, i),
    ensures
        find_player(s, key) == Some(i),
{
    lemma_find_player(s, key);
    match find_player(s, key) {
        None => {
            assert(s[i].pubkey@ == key);
        },
        Some(k) => {
            if k < i {
                assert(s[k].pubkey@ != key);
            } else if i < k {
                assert(s[i].pubkey@ != key);
            }
        },
    }
}

// ---------------------------------------------------------------------------
// The executable board.
// ---------------------------------------------------------------------------

/// At most `CAPACITY` players, in the order in which they joined.
pub struct Leaderboard {
    players: Vec<Player>,
}

impl View for Leaderboard {
    type V = Seq<Player>;

    closed spec fn view(&self) -> Seq<Player> {
        self.players@
    }
}

impl Leaderboard {
    /// The board's invariant: at most `CAPACITY` entries.
    pub open spec fn wf(&self) -> bool {
        board_wf(self@)
    }

    /// An empty board.
    pub fn new() -> (r: Leaderboard)
        ensures
            r.wf(),
            r@ == Seq::<Player>::empty(),
    {
        Leaderboard { players: Vec::new() }
    }

    /// A board holding `players`, in that order, when there are at most
    /// `CAPACITY` of them; nothing otherwise.
    pub fn from_players(players: Vec<Player>) -> (r: Option<Leaderboard>)
        ensures
            r is Some <==> board_wf(players@),
            r matches Some(b) ==> b.wf() && b@ == players@,
    {
        if players.len() > CAPACITY {
            None
        } else {
            Some(Leaderboard { players })
        }
    }

    /// The entries, in the order in which they joined.
    pub fn players(&self) -> (r: &Vec<Player>)
        ensures
            r@ == self@,
    {
        &self.players
    }

    /// Empties the board, whatever it held.
    pub fn initialize(&mut self) -> (r: Result<(), RockDestroyerError>)
        ensures
            final(self).wf(),
            final(self)@ == Seq::<Player>::empty(),
            r == Ok::<(), RockDestroyerError>(()),
    {
        self.players = Vec::new();
        Ok(())
    }

    /// Index of the entry that a newcomer would replace on a full board:
    /// the first one with the lowest score.
    pub fn lowest_score_index(&self) -> (r: usize)
        requires
            self@.len() > 0,
        ensures
            r as int == eviction_index(self@),
            is_first_min(self@, r as int),
    {
        let mut min_index: usize = 0;
        let mut i: usize = 1;
        while i < self.players.len()
            invariant
                1 <= i <= self@.len(),
                min_index as int == min_score_index(self@, i as int),
                min_index < i,
            decreases self@.len() - i,
        {
            if self.players[i].score < self.players[min_index].score {
                min_index = i;
            }
            i = i + 1;
        }
        proof {
            lemma_eviction_index(self@);
        }
        min_index
    }

    /// Adds a player: appended while the board has room, otherwise put in
    /// place of the first entry with the lowest score.
    pub fn add_player(&mut self, player: Player) -> (r: Result<(), RockDestroyerError>)
        requires
            old(self).wf(),
        ensures
            final(self).wf(),
            final(self)@ == after_add(old(self)@, player),
            r == Ok::<(), RockDestroyerError>(()),
    {
        if self.players.len() < CAPACITY {
            self.players.push(player);
        } else {
            let min_index = self.lowest_score_index();
            self.players[min_index] = player;
        }
        Ok(())
    }

    /// Index of the first entry whose key is `pubkey`, if any.
    pub fn position(&self, pubkey: &Pubkey) -> (r: Option<usize>)
        ensures
            match r {
                None => find_player(self@, pubkey@) is None,
                Some(i) => find_player(self@, pubkey@) == Some(i as int),
            },
    {
        let mut i: usize = 0;
        while i < self.players.len()
            invariant
                i <= self@.len(),
                find_player(self@, pubkey@) == find_from(self@, pubkey@, i as int),
            decreases self@.len() - i,
        {
            if self.players[i].pubkey.same_as(pubkey) {
                return Some(i);
            }
            i = i + 1;
        }
        None
    }

    /// Records `score` for the first entry keyed `pubkey`, using up its paid
    /// submission. Fails with `PlayerNotFound` when no entry has the key and
    /// with `PlayerNotPaid` when its submission has been used; the board is
    /// then unchanged.
    pub fn update_score(&mut self, pubkey: &Pubkey, score: u64) -> (r: Result<(), RockDestroyerError>)
        requires
            old(self).wf(),
        ensures
            final(self).wf(),
            (final(self)@, r) == after_update(old(self)@, pubkey@, score),
    {
        proof {
            lemma_find_player(self@, pubkey@);
        }
        match self.position(pubkey) {
            None => Err(RockDestroyerError::PlayerNotFound),
            Some(i) => {
                if !self.players[i].has_paid {
                    return Err(RockDestroyerError::PlayerNotPaid);
                }
                self.players[i].score = score;
                self.players[i].has_paid = false;
                Ok(())
            },
        }
    }
}

} // verus!
