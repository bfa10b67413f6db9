use balatrust_core::{Deck, PlayingCard, Rank, Suit};
use rand::rngs::StdRng;
use rand::SeedableRng;

#[test]
fn test_standard_deck_has_52_cards() {
    let deck = Deck::standard();
    assert_eq!(deck.total(), 52);
}

#[test]
fn test_draw_reduces_remaining() {
    let mut deck = Deck::standard();
    let drawn = deck.draw(5);
    assert_eq!(drawn.len(), 5);
    assert_eq!(deck.remaining(), 47);
}

#[test]
fn test_discard_and_reshuffle() {
    let mut rng = StdRng::seed_from_u64(42);
    let mut deck = Deck::standard();
    let drawn = deck.draw(5);
    deck.discard_cards(&drawn);
    assert_eq!(deck.discard_count(), 5);
    assert_eq!(deck.remaining(), 47);
    deck.reshuffle_discard(&mut rng);
    assert_eq!(deck.remaining(), 52);
    assert_eq!(deck.discard_count(), 0);
}

#[test]
fn draw_takes_from_the_top_and_stops_when_empty() {
    let mut deck = Deck::standard();
    let drawn = deck.draw(2);
    assert_eq!(drawn, vec![PlayingCard::new(Rank::Ace, Suit::Clubs), PlayingCard::new(Rank::King, Suit::Clubs)]);
    let rest = deck.draw(100);
    assert_eq!(rest.len(), 50);
    assert_eq!(deck.remaining(), 0);
    assert!(deck.draw(3).is_empty());
}

#[test]
fn standard_deck_has_every_card_once() {
    let all = Deck::standard().all_cards();
    for s in Suit::all() {
        for r in Rank::all() {
            assert_eq!(all.iter().filter(|c| **c == PlayingCard::new(r, s)).count(), 1);
        }
    }
}

#[test]
fn remove_card_takes_first_match_from_either_pile() {
    let mut deck = Deck::standard();
    let two = PlayingCard::new(Rank::Two, Suit::Spades);
    assert!(deck.remove_card(&two));
    assert!(!deck.remove_card(&two));
    assert_eq!(deck.total(), 51);
    let drawn = deck.draw(1);
    deck.discard_cards(&drawn);
    assert!(deck.remove_card(&drawn[0]));
    assert_eq!(deck.discard_count(), 0);
    deck.add_card(two);
    assert_eq!(deck.remaining(), 51);
}

#[test]
fn shuffle_keeps_the_cards() {
    let mut rng = StdRng::seed_from_u64(1);
    let mut deck = Deck::standard();
    deck.shuffle(&mut rng);
    let mut all = deck.all_cards();
    let mut reference = Deck::standard().all_cards();
    let key = |c: &PlayingCard| (c.suit.order(), c.rank.value());
    all.sort_by_key(key);
    reference.sort_by_key(key);
    assert_eq!(all, reference);
}

#[test]
fn shuffle_changes_the_order() {
    let mut rng = StdRng::seed_from_u64(2024);
    let mut deck = Deck::standard();
    deck.shuffle(&mut rng);
    assert_ne!(deck.all_cards(), Deck::standard().all_cards());
    assert_eq!(deck.remaining(), 52);
}
