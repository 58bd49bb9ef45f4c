use vrf_cards::player::Player;

#[test]
fn test_new_player() {
    let player = Player::new();
    assert!(player.reveal_card().is_none());
    assert!(!player.verify_card(b"test"));
}

#[test]
fn test_draw_card() {
    let mut player = Player::new();
    player.draw_card(b"test");
    assert!(player.reveal_card().is_some());
    assert!(player.verify_card(b"test"));
}

#[test]
fn test_reveal_card() {
    let mut player = Player::new();
    player.draw_card(b"test");
    let card = player.reveal_card();
    assert!(card.is_some());
    assert!(card.unwrap() < 52);
}

#[test]
fn test_verify_card() {
    let mut player = Player::new();
    player.draw_card(b"test");
    let is_valid = player.verify_card(b"test");
    assert!(is_valid);
}

#[test]
fn test_verify_card_with_wrong_input() {
    let mut player = Player::new();
    player.draw_card(b"test");
    let is_valid = player.verify_card(b"wrong");
    assert!(!is_valid);
}

#[test]
fn verify_is_repeatable() {
    let mut player = Player::new();
    player.draw_card(b"test");
    let first = player.verify_card(b"test");
    let second = player.verify_card(b"test");
    let third = player.verify_card(b"test");
    assert!(first);
    assert_eq!(first, second);
    assert_eq!(second, third);
}

#[test]
fn redraw_overwrites_record() {
    let mut player = Player::new();
    player.draw_card(b"round one");
    assert!(player.verify_card(b"round one"));
    player.draw_card(b"round two");
    assert!(player.verify_card(b"round two"));
    assert!(!player.verify_card(b"round one"));
}

#[test]
fn reveal_is_deterministic() {
    let mut player = Player::new();
    player.draw_card(b"test");
    let a = player.reveal_card();
    let b = player.reveal_card();
    assert_eq!(a, b);
}

#[test]
fn end_to_end_two_players_one_round() {
    let mut alice = Player::new();
    let mut bob = Player::new();
    alice.draw_card(b"poker_game1");
    bob.draw_card(b"poker_game1");
    assert!(alice.verify_card(b"poker_game1"));
    assert!(bob.verify_card(b"poker_game1"));
    assert!(!alice.verify_card(b"poker_game2"));
    assert!(!bob.verify_card(b"poker_game2"));
    assert!(alice.reveal_card().unwrap() < 52);
    assert!(bob.reveal_card().unwrap() < 52);
}
