use rock_destroyer::{
    add_player_to_leaderboard, initialize_leaderboard, new_game, Leaderboard, Player, Pubkey,
    RockDestroyerError, CAPACITY,
};

fn key(n: u8) -> Pubkey {
    Pubkey::new([n; 32])
}

fn player(name: &str, n: u8, score: u64, has_paid: bool) -> Player {
    Player { username: name.to_string(), pubkey: key(n), score, has_paid }
}

fn board_with_scores(scores: &[u64]) -> Leaderboard {
    let mut lb = Leaderboard::new();
    for (i, s) in scores.iter().enumerate() {
        let n = (i + 1) as u8;
        lb.add_player(player(&format!("P{}", n), n, *s, true)).unwrap();
    }
    lb
}

#[test]
fn two_players_then_one_score() {
    let mut lb = Leaderboard::new();
    initialize_leaderboard(&mut lb).unwrap();
    new_game(&mut lb, "A".to_string(), key(1)).unwrap();
    new_game(&mut lb, "B".to_string(), key(2)).unwrap();
    add_player_to_leaderboard(&mut lb, &key(1), 50).unwrap();
    assert_eq!(
        lb.players(),
        &vec![player("A", 1, 50, false), player("B", 2, 0, true)]
    );
}

#[test]
fn up_to_five_players_are_appended() {
    let mut lb = Leaderboard::new();
    for n in 1..=5u8 {
        new_game(&mut lb, format!("P{}", n), key(n)).unwrap();
        assert_eq!(lb.players().len(), n as usize);
        assert_eq!(lb.players()[n as usize - 1], player(&format!("P{}", n), n, 0, true));
    }
}

#[test]
fn board_never_exceeds_capacity() {
    let mut lb = Leaderboard::new();
    for n in 1..=40u8 {
        new_game(&mut lb, format!("P{}", n), key(n)).unwrap();
        assert!(lb.players().len() <= CAPACITY);
    }
    assert_eq!(lb.players().len(), 5);
}

#[test]
fn sixth_player_evicts_lowest_score() {
    let mut lb = board_with_scores(&[30, 10, 40, 20, 50]);
    assert_eq!(lb.lowest_score_index(), 1);
    new_game(&mut lb, "F".to_string(), key(6)).unwrap();
    assert_eq!(
        lb.players(),
        &vec![
            player("P1", 1, 30, true),
            player("F", 6, 0, true),
            player("P3", 3, 40, true),
            player("P4", 4, 20, true),
            player("P5", 5, 50, true),
        ]
    );
    assert_eq!(lb.position(&key(2)), None);
    assert_eq!(
        add_player_to_leaderboard(&mut lb, &key(2), 99),
        Err(RockDestroyerError::PlayerNotFound)
    );
}

#[test]
fn eviction_ties_take_the_earliest_entry() {
    let mut lb = board_with_scores(&[7, 3, 9, 3, 3]);
    assert_eq!(lb.lowest_score_index(), 1);
    new_game(&mut lb, "F".to_string(), key(6)).unwrap();
    assert_eq!(lb.players()[1], player("F", 6, 0, true));
    assert_eq!(lb.players()[3], player("P4", 4, 3, true));
    assert_eq!(lb.players()[4], player("P5", 5, 3, true));
}

#[test]
fn all_equal_scores_evict_the_first_entry() {
    let mut lb = Leaderboard::new();
    for n in 1..=5u8 {
        new_game(&mut lb, format!("P{}", n), key(n)).unwrap();
    }
    new_game(&mut lb, "F".to_string(), key(6)).unwrap();
    assert_eq!(lb.players()[0], player("F", 6, 0, true));
    assert_eq!(lb.players()[1], player("P2", 2, 0, true));
    new_game(&mut lb, "G".to_string(), key(7)).unwrap();
    assert_eq!(lb.players()[0], player("G", 7, 0, true));
}

#[test]
fn unknown_key_is_not_found_and_changes_nothing() {
    let mut lb = board_with_scores(&[1, 2]);
    let before = lb.players().clone();
    assert_eq!(lb.update_score(&key(9), 5), Err(RockDestroyerError::PlayerNotFound));
    assert_eq!(lb.players(), &before);
}

#[test]
fn empty_board_finds_nobody() {
    let mut lb = Leaderboard::new();
    assert_eq!(lb.position(&key(1)), None);
    assert_eq!(lb.update_score(&key(1), 5), Err(RockDestroyerError::PlayerNotFound));
    assert!(lb.players().is_empty());
}

#[test]
fn unpaid_entry_is_refused_and_changes_nothing() {
    let mut lb = Leaderboard::new();
    lb.add_player(player("A", 1, 12, false)).unwrap();
    lb.add_player(player("B", 2, 0, true)).unwrap();
    let before = lb.players().clone();
    assert_eq!(lb.update_score(&key(1), 5), Err(RockDestroyerError::PlayerNotPaid));
    assert_eq!(lb.players(), &before);
}

#[test]
fn paid_entry_scores_exactly_once() {
    let mut lb = board_with_scores(&[4, 8]);
    assert_eq!(lb.update_score(&key(2), 77), Ok(()));
    assert_eq!(lb.players()[1], player("P2", 2, 77, false));
    assert_eq!(lb.players()[0], player("P1", 1, 4, true));
    let after_first = lb.players().clone();
    assert_eq!(lb.update_score(&key(2), 100), Err(RockDestroyerError::PlayerNotPaid));
    assert_eq!(lb.players(), &after_first);
}

#[test]
fn score_may_be_the_largest_value() {
    let mut lb = board_with_scores(&[0]);
    assert_eq!(lb.update_score(&key(1), u64::MAX), Ok(()));
    assert_eq!(lb.players()[0].score, u64::MAX);
}

#[test]
fn duplicate_keys_update_the_first_entry() {
    let mut lb = Leaderboard::new();
    lb.add_player(player("A", 1, 0, true)).unwrap();
    lb.add_player(player("A2", 1, 0, true)).unwrap();
    assert_eq!(lb.position(&key(1)), Some(0));
    assert_eq!(lb.update_score(&key(1), 3), Ok(()));
    assert_eq!(lb.players()[0], player("A", 1, 3, false));
    assert_eq!(lb.players()[1], player("A2", 1, 0, true));
    assert_eq!(lb.update_score(&key(1), 4), Err(RockDestroyerError::PlayerNotPaid));
}

#[test]
fn initialize_clears_the_board() {
    let mut lb = board_with_scores(&[1, 2, 3]);
    assert_eq!(initialize_leaderboard(&mut lb), Ok(()));
    assert!(lb.players().is_empty());
    assert_eq!(lb.initialize(), Ok(()));
    assert!(lb.players().is_empty());
}

#[test]
fn keys_compare_byte_by_byte() {
    let a = key(3);
    let mut bytes = [3u8; 32];
    assert!(a.same_as(&Pubkey::new(bytes)));
    bytes[31] = 4;
    assert!(!a.same_as(&Pubkey::new(bytes)));
    bytes[31] = 3;
    bytes[0] = 0;
    assert!(!a.same_as(&Pubkey::new(bytes)));
    assert_eq!(Pubkey::new(bytes).to_bytes(), bytes);
}

#[test]
fn new_player_has_paid_and_no_score() {
    let p = Player::new("Z".to_string(), key(5));
    assert_eq!(p, player("Z", 5, 0, true));
}

#[test]
fn loading_stored_entries_keeps_their_order() {
    let stored = vec![player("A", 1, 9, false), player("B", 2, 0, true)];
    let lb = Leaderboard::from_players(stored.clone()).unwrap();
    assert_eq!(lb.players(), &stored);
}

#[test]
fn loading_more_than_capacity_is_refused() {
    let stored: Vec<Player> = (1..=6u8).map(|n| player("P", n, 0, true)).collect();
    assert!(Leaderboard::from_players(stored[..5].to_vec()).is_some());
    assert!(Leaderboard::from_players(stored).is_none());
}
