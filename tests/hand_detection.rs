use balatrust_core::{detect_hand, Edition, Enhancement, PlayingCard, PokerHand, Rank, Suit};

fn c(rank: Rank, suit: Suit) -> PlayingCard {
    PlayingCard::new(rank, suit)
}

#[test]
fn test_high_card() {
    let cards = vec![c(Rank::Two, Suit::Spades), c(Rank::Five, Suit::Hearts), c(Rank::Nine, Suit::Clubs)];
    let result = detect_hand(&cards);
    assert_eq!(result.hand_type, PokerHand::HighCard);
    assert_eq!(result.scoring_indices.len(), 1);
}

#[test]
fn test_pair() {
    let cards = vec![c(Rank::King, Suit::Spades), c(Rank::King, Suit::Hearts), c(Rank::Five, Suit::Clubs)];
    let result = detect_hand(&cards);
    assert_eq!(result.hand_type, PokerHand::Pair);
    assert_eq!(result.scoring_indices.len(), 2);
}

#[test]
fn test_two_pair() {
    let cards = vec![
        c(Rank::King, Suit::Spades),
        c(Rank::King, Suit::Hearts),
        c(Rank::Five, Suit::Clubs),
        c(Rank::Five, Suit::Diamonds),
        c(Rank::Three, Suit::Spades),
    ];
    let result = detect_hand(&cards);
    assert_eq!(result.hand_type, PokerHand::TwoPair);
    assert_eq!(result.scoring_indices.len(), 4);
}

#[test]
fn test_three_of_a_kind() {
    let cards = vec![c(Rank::Queen, Suit::Spades), c(Rank::Queen, Suit::Hearts), c(Rank::Queen, Suit::Clubs)];
    let result = detect_hand(&cards);
    assert_eq!(result.hand_type, PokerHand::ThreeOfAKind);
    assert_eq!(result.scoring_indices.len(), 3);
}

#[test]
fn test_straight() {
    let cards = vec![
        c(Rank::Five, Suit::Spades),
        c(Rank::Six, Suit::Hearts),
        c(Rank::Seven, Suit::Clubs),
        c(Rank::Eight, Suit::Diamonds),
        c(Rank::Nine, Suit::Spades),
    ];
    let result = detect_hand(&cards);
    assert_eq!(result.hand_type, PokerHand::Straight);
    assert_eq!(result.scoring_indices.len(), 5);
}

#[test]
fn test_ace_low_straight() {
    let cards = vec![
        c(Rank::Ace, Suit::Spades),
        c(Rank::Two, Suit::Hearts),
        c(Rank::Three, Suit::Clubs),
        c(Rank::Four, Suit::Diamonds),
        c(Rank::Five, Suit::Spades),
    ];
    let result = detect_hand(&cards);
    assert_eq!(result.hand_type, PokerHand::Straight);
}

#[test]
fn test_flush() {
    let cards = vec![
        c(Rank::Two, Suit::Hearts),
        c(Rank::Five, Suit::Hearts),
        c(Rank::Eight, Suit::Hearts),
        c(Rank::Jack, Suit::Hearts),
        c(Rank::Ace, Suit::Hearts),
    ];
    let result = detect_hand(&cards);
    assert_eq!(result.hand_type, PokerHand::Flush);
    assert_eq!(result.scoring_indices.len(), 5);
}

#[test]
fn test_full_house() {
    let cards = vec![
        c(Rank::King, Suit::Spades),
        c(Rank::King, Suit::Hearts),
        c(Rank::King, Suit::Clubs),
        c(Rank::Five, Suit::Diamonds),
        c(Rank::Five, Suit::Spades),
    ];
    let result = detect_hand(&cards);
    assert_eq!(result.hand_type, PokerHand::FullHouse);
    assert_eq!(result.scoring_indices.len(), 5);
}

#[test]
fn test_four_of_a_kind() {
    let cards = vec![
        c(Rank::Ace, Suit::Spades),
        c(Rank::Ace, Suit::Hearts),
        c(Rank::Ace, Suit::Clubs),
        c(Rank::Ace, Suit::Diamonds),
        c(Rank::Three, Suit::Spades),
    ];
    let result = detect_hand(&cards);
    assert_eq!(result.hand_type, PokerHand::FourOfAKind);
    assert_eq!(result.scoring_indices.len(), 4);
}

#[test]
fn test_straight_flush() {
    let cards = vec![
        c(Rank::Five, Suit::Hearts),
        c(Rank::Six, Suit::Hearts),
        c(Rank::Seven, Suit::Hearts),
        c(Rank::Eight, Suit::Hearts),
        c(Rank::Nine, Suit::Hearts),
    ];
    let result = detect_hand(&cards);
    assert_eq!(result.hand_type, PokerHand::StraightFlush);
}

#[test]
fn test_royal_flush() {
    let cards = vec![
        c(Rank::Ten, Suit::Spades),
        c(Rank::Jack, Suit::Spades),
        c(Rank::Queen, Suit::Spades),
        c(Rank::King, Suit::Spades),
        c(Rank::Ace, Suit::Spades),
    ];
    let result = detect_hand(&cards);
    assert_eq!(result.hand_type, PokerHand::RoyalFlush);
}

#[test]
fn test_five_of_a_kind() {
    let cards = vec![
        c(Rank::King, Suit::Spades),
        c(Rank::King, Suit::Hearts),
        c(Rank::King, Suit::Clubs),
        c(Rank::King, Suit::Diamonds),
        c(Rank::King, Suit::Spades),
    ];
    let result = detect_hand(&cards);
    assert_eq!(result.hand_type, PokerHand::FiveOfAKind);
}

#[test]
fn empty_play_is_high_card_with_no_scoring_cards() {
    let result = detect_hand(&[]);
    assert_eq!(result.hand_type, PokerHand::HighCard);
    assert!(result.scoring_indices.is_empty());
}

#[test]
fn high_card_scores_last_of_the_highest_rank() {
    let cards = vec![c(Rank::Nine, Suit::Spades), c(Rank::Two, Suit::Hearts), c(Rank::Seven, Suit::Clubs)];
    assert_eq!(detect_hand(&cards).scoring_indices, vec![0]);
}

#[test]
fn pair_scores_the_pair_indices_in_order() {
    let cards = vec![c(Rank::Five, Suit::Clubs), c(Rank::King, Suit::Spades), c(Rank::Two, Suit::Clubs), c(Rank::King, Suit::Hearts)];
    let result = detect_hand(&cards);
    assert_eq!(result.hand_type, PokerHand::Pair);
    assert_eq!(result.scoring_indices, vec![1, 3]);
}

#[test]
fn two_pair_scores_higher_pair_first() {
    let cards = vec![
        c(Rank::Five, Suit::Clubs),
        c(Rank::King, Suit::Spades),
        c(Rank::Five, Suit::Diamonds),
        c(Rank::King, Suit::Hearts),
        c(Rank::Three, Suit::Spades),
    ];
    assert_eq!(detect_hand(&cards).scoring_indices, vec![1, 3, 0, 2]);
}

#[test]
fn wild_card_completes_a_flush() {
    let mut wild = c(Rank::Three, Suit::Spades);
    wild.enhancement = Some(Enhancement::Wild);
    let cards = vec![
        c(Rank::Two, Suit::Hearts),
        c(Rank::Five, Suit::Hearts),
        c(Rank::Eight, Suit::Hearts),
        c(Rank::Jack, Suit::Hearts),
        wild,
    ];
    assert_eq!(detect_hand(&cards).hand_type, PokerHand::Flush);
}

#[test]
fn four_suited_cards_are_no_flush() {
    let cards = vec![
        c(Rank::Two, Suit::Hearts),
        c(Rank::Five, Suit::Hearts),
        c(Rank::Eight, Suit::Hearts),
        c(Rank::Jack, Suit::Hearts),
    ];
    let result = detect_hand(&cards);
    assert_eq!(result.hand_type, PokerHand::HighCard);
    assert_eq!(result.scoring_indices, vec![3]);
}

#[test]
fn five_cards_with_gap_are_no_straight() {
    let cards = vec![
        c(Rank::Five, Suit::Spades),
        c(Rank::Six, Suit::Hearts),
        c(Rank::Seven, Suit::Clubs),
        c(Rank::Eight, Suit::Diamonds),
        c(Rank::Ten, Suit::Spades),
    ];
    assert_eq!(detect_hand(&cards).hand_type, PokerHand::HighCard);
}

#[test]
fn flush_house_and_flush_five() {
    let house = vec![
        c(Rank::King, Suit::Hearts),
        c(Rank::King, Suit::Hearts),
        c(Rank::King, Suit::Hearts),
        c(Rank::Five, Suit::Hearts),
        c(Rank::Five, Suit::Hearts),
    ];
    assert_eq!(detect_hand(&house).hand_type, PokerHand::FlushHouse);
    let five = vec![c(Rank::Two, Suit::Clubs); 5];
    assert_eq!(detect_hand(&five).hand_type, PokerHand::FlushFive);
}

#[test]
fn hand_order_follows_strength() {
    let all = PokerHand::all();
    for w in all.windows(2) {
        assert!(w[0] < w[1]);
        assert!(w[1].at_least(w[0]));
        assert!(!w[0].at_least(w[1]));
    }
    assert_eq!(PokerHand::FlushFive.name(), "Flush Five");
}

#[test]
fn card_values_follow_modifiers() {
    let mut card = c(Rank::Ace, Suit::Spades);
    assert_eq!(card.chip_value(), 11);
    card.enhancement = Some(Enhancement::Stone);
    assert_eq!(card.chip_value(), 50);
    assert!(card.always_scores());
    card.enhancement = Some(Enhancement::Bonus);
    card.edition = Edition::Foil;
    assert_eq!(card.chip_value(), 91);
    card.enhancement = Some(Enhancement::Mult);
    card.edition = Edition::Holographic;
    assert_eq!(card.mult_bonus(), 14);
    card.enhancement = Some(Enhancement::Glass);
    card.edition = Edition::Polychrome;
    let x = card.x_mult();
    assert_eq!(x.num * 1, 3 * x.den);
    card.debuffed = true;
    assert_eq!(card.chip_value(), 0);
    assert_eq!(card.mult_bonus(), 0);
    assert!(card.x_mult().is_identity());
    assert_eq!(Rank::King.short_name(), "K");
    assert!(Suit::Hearts.is_red());
    assert!(!Suit::Clubs.is_red());
    assert_eq!(Rank::Ace.next(), Rank::Two);
}
