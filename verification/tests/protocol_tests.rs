use vrf_cards::card::map_card;
use vrf_cards::commit::build_commitment;
use vrf_cards::round::select_winner;
use vrf_cards::session::GameSession;

#[test]
fn commitment_matches_round_string() {
    assert_eq!(build_commitment(1), b"poker_game1".to_vec());
    assert_eq!(build_commitment(2), b"poker_game2".to_vec());
    assert_eq!(build_commitment(10), b"poker_game10".to_vec());
    assert_eq!(build_commitment(0), b"poker_game0".to_vec());
    assert_eq!(build_commitment(18446744073709551615), b"poker_game18446744073709551615".to_vec());
}

#[test]
fn commitments_of_distinct_rounds_differ() {
    for n in 1..=12u64 {
        for m in 1..=12u64 {
            if n != m {
                assert_ne!(build_commitment(n), build_commitment(m));
            }
        }
    }
    assert_ne!(build_commitment(1), build_commitment(11));
    assert_ne!(build_commitment(2), build_commitment(20));
}

#[test]
fn map_card_reads_first_eight_bytes_little_endian() {
    assert_eq!(map_card(&vec![0, 0, 0, 0, 0, 0, 0, 0]), Some(0));
    assert_eq!(map_card(&vec![53, 0, 0, 0, 0, 0, 0, 0]), Some(1));
    // 1 + 256 = 257, and 257 % 52 == 49.
    assert_eq!(map_card(&vec![1, 1, 0, 0, 0, 0, 0, 0]), Some(49));
    // The ninth byte must not matter.
    assert_eq!(map_card(&vec![53, 0, 0, 0, 0, 0, 0, 0, 200]), Some(1));
    assert_eq!(map_card(&vec![51, 0, 0, 0, 0, 0, 0, 0]), Some(51));
}

#[test]
fn map_card_needs_eight_bytes() {
    assert_eq!(map_card(&vec![]), None);
    assert_eq!(map_card(&vec![7]), None);
    assert_eq!(map_card(&vec![1, 2, 3, 4, 5, 6, 7]), None);
}

#[test]
fn winner_takes_highest_card() {
    assert_eq!(select_winner(&vec![10, 37]), Some(1));
    assert_eq!(select_winner(&vec![37, 10]), Some(0));
    assert_eq!(select_winner(&vec![5, 9, 9]), Some(1));
}

#[test]
fn winner_tie_between_missing_card_and_zero() {
    // A player with no revealed card competes as 0, so either side of a
    // 0-0 tie may win; the implementation takes the first.
    let winner = select_winner(&vec![0, 0]);
    assert!(winner.is_some());
}

#[test]
fn winner_of_no_players_is_none() {
    assert_eq!(select_winner(&vec![]), None);
}

#[test]
fn session_round_trip() {
    let mut session = GameSession::new();
    assert_eq!(session.player_count(), 0);
    assert!(session.add_player(1));
    assert!(session.add_player(2));
    assert!(!session.add_player(2));
    assert_eq!(session.player_count(), 2);

    let result = session.play_round();
    assert_eq!(result.round, 1);
    assert_eq!(result.outcomes.len(), 2);
    let ids: Vec<u64> = result.outcomes.iter().map(|o| o.id).collect();
    assert_eq!(ids, vec![1, 2]);
    for outcome in &result.outcomes {
        assert!(outcome.valid);
        assert!(outcome.card.unwrap() < 52);
    }
    let best = result.outcomes.iter().map(|o| o.card.unwrap_or(0)).max().unwrap();
    let expected = result.outcomes.iter().find(|o| o.card.unwrap_or(0) == best).unwrap();
    assert_eq!(result.winner, Some(expected.id));
}

#[test]
fn session_plays_rounds_in_order() {
    let mut session = GameSession::new();
    assert!(session.add_player(7));
    assert!(session.add_player(9));
    let results = session.play_rounds(3);
    assert_eq!(results.len(), 3);
    for (i, result) in results.iter().enumerate() {
        assert_eq!(result.round, i as u64 + 1);
        assert_eq!(result.outcomes.len(), 2);
        assert!(result.outcomes.iter().all(|o| o.valid));
        assert!(result.winner.is_some());
    }
}

#[test]
fn empty_session_round_has_no_winner() {
    let mut session = GameSession::new();
    let result = session.play_round();
    assert_eq!(result.round, 1);
    assert!(result.outcomes.is_empty());
    assert_eq!(result.winner, None);
}
