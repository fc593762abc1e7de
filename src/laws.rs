use crate::leaderboard::{
    after_add, after_adds, after_update, eviction_index, find_player, is_first_match,
    is_first_min, lemma_eviction_index, lemma_find_first_match, lemma_find_player,
    lemma_first_min_unique, scored, CAPACITY,
};
use crate::player::{Player, RockDestroyerError};
use vstd::prelude::*;

verus! {

/// However many players join, one after the other, a board that holds at
/// most `CAPACITY` entries never holds more.
pub proof fn law_joins_keep_capacity(s: Seq<Player>, ps: Seq<Player>)
    requires
        s.len() <= CAPACITY,
    ensures
        after_adds(s, ps).len() <= CAPACITY,
    decreases ps.len(),
{
    if ps.len() > 0 {
        law_joins_keep_capacity(s, ps.drop_last());
        let b = after_adds(s, ps.drop_last());
        if b.len() >= CAPACITY {
            lemma_eviction_index(b);
        }
    }
}

/// A player joining a full board takes the place of exactly the first entry
/// with the lowest score; every other entry stays where it was.
pub proof fn law_full_board_evicts_first_lowest(s: Seq<Player>, p: Player)
    requires
        s.len() == CAPACITY,
    ensures
        is_first_min(s, eviction_index(s)),
        forall|k: int| #[trigger] is_first_min(s, k) ==> k == eviction_index(s),
        after_add(s, p).len() == s.len(),
        after_add(s, p)[eviction_index(s)] == p,
        forall|j: int|
            0 <= j < s.len() && j != eviction_index(s) ==> #[trigger] after_add(s, p)[j] == s[j],
{
    lemma_eviction_index(s);
    assert forall|k: int| #[trigger] is_first_min(s, k) implies k == eviction_index(s) by {
        lemma_first_min_unique(s, k, eviction_index(s));
    }
}

/// Once an entry has been evicted for a newcomer with another key, its key is
/// no longer found, provided no other entry shared it, and a score submitted
/// under it is refused with `PlayerNotFound`.
pub proof fn law_evicted_key_not_found(s: Seq<Player>, p: Player, score: u64)
    requires
        s.len() == CAPACITY,
        p.pubkey@ != s[eviction_index(s)].pubkey@,
        forall|j: int|
            0 <= j < s.len() && j != eviction_index(s) ==> #[trigger] s[j].pubkey@ != s[eviction_index(
                s,
            )].pubkey@,
    ensures
        find_player(after_add(s, p), s[eviction_index(s)].pubkey@) is None,
        after_update(after_add(s, p), s[eviction_index(s)].pubkey@, score) == (
        after_add(s, p),
        Err::<(), RockDestroyerError>(RockDestroyerError::PlayerNotFound),
        ),
{
    lemma_eviction_index(s);
    let k = eviction_index(s);
    let key = s[k].pubkey@;
    let a = after_add(s, p);
    lemma_find_player(a, key);
    match find_player(a, key) {
        None => {},
        Some(i) => {
            if i != k {
                assert(a[i] == s[i]);
            }
        },
    }
}

/// A score for a key that no entry has is refused with `PlayerNotFound`, and
/// the board is left as it was.
pub proof fn law_unknown_key_refused(s: Seq<Player>, key: Seq<u8>, score: u64)
    requires
        forall|j: int| 0 <= j < s.len() ==> #[trigger] s[j].pubkey@ != key,
    ensures
        after_update(s, key, score) == (s, Err::<(), RockDestroyerError>(RockDestroyerError::PlayerNotFound)),
{
    lemma_find_player(s, key);
    if let Some(i) = find_player(s, key) {
        assert(s[i].pubkey@ == key);
    }
}

/// A score for an entry whose paid submission has been used is refused with
/// `PlayerNotPaid`, and the board is left as it was.
pub proof fn law_unpaid_entry_refused(s: Seq<Player>, key: Seq<u8>, score: u64, i: int)
    requires
        is_first_match(s, key, i),
        !s[i].has_paid,
    ensures
        after_update(s, key, score) == (s, Err::<(), RockDestroyerError>(RockDestroyerError::PlayerNotPaid)),
{
    lemma_find_first_match(s, key, i);
}

/// A paid entry takes exactly one score: the first submission records the
/// score and uses up the payment, leaving every other entry as it was, and a
/// second submission under the same key is refused with `PlayerNotPaid`.
pub proof fn law_paid_entry_scores_once(
    s: Seq<Player>,
    key: Seq<u8>,
    score: u64,
    next_score: u64,
    i: int,
)
    requires
        is_first_match(s, key, i),
        s[i].has_paid,
    ensures
        after_update(s, key, score).1 == Ok::<(), RockDestroyerError>(()),
        after_update(s, key, score).0 == s.update(i, scored(s[i], score)),
        after_update(s, key, score).0[i].score == score,
        !after_update(s, key, score).0[i].has_paid,
        after_update(after_update(s, key, score).0, key, next_score) == (
        after_update(s, key, score).0,
        Err::<(), RockDestroyerError>(RockDestroyerError::PlayerNotPaid),
        ),
{
    lemma_find_first_match(s, key, i);
    let s2 = after_update(s, key, score).0;
    assert(is_first_match(s2, key, i)) by {
        assert forall|j: int| 0 <= j < i implies #[trigger] s2[j].pubkey@ != key by {
            assert(s2[j] == s[j]);
        }
    }
    lemma_find_first_match(s2, key, i);
}

} // verus!
