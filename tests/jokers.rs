use balatrust_core::{
    evaluate_joker, Joker, JokerContext, JokerEffect, JokerRarity, JokerType, PlayingCard,
    PokerHand, Rank, Suit,
};

fn c(rank: Rank, suit: Suit) -> PlayingCard {
    PlayingCard::new(rank, suit)
}

#[test]
fn test_joker_basic_mult() {
    let joker = Joker::new(JokerType::Joker);
    let cards = vec![c(Rank::Ace, Suit::Spades), c(Rank::King, Suit::Hearts)];
    let ctx = JokerContext {
        played_cards: &cards,
        scoring_indices: &[0, 1],
        hand_type: PokerHand::HighCard,
        held_cards: &[],
        discards_remaining: 3,
        num_played: 2,
    };
    let effect = evaluate_joker(&joker, &ctx, None);
    match effect {
        JokerEffect::AddMult(m) => assert_eq!(m, 4),
        _ => panic!("Expected AddMult"),
    }
}

#[test]
fn test_greedy_joker_diamonds() {
    let joker = Joker::new(JokerType::GreedyJoker);
    let cards = vec![c(Rank::Ace, Suit::Diamonds), c(Rank::King, Suit::Diamonds), c(Rank::Five, Suit::Hearts)];
    let ctx = JokerContext {
        played_cards: &cards,
        scoring_indices: &[0, 1, 2],
        hand_type: PokerHand::HighCard,
        held_cards: &[],
        discards_remaining: 3,
        num_played: 3,
    };
    let effect = evaluate_joker(&joker, &ctx, None);
    match effect {
        JokerEffect::AddMultPerCard { card_indices, mult_each } => {
            assert_eq!(card_indices.len(), 2);
            assert_eq!(mult_each, 3);
        }
        _ => panic!("Expected AddMultPerCard"),
    }
}

#[test]
fn test_the_duo_x_mult() {
    let joker = Joker::new(JokerType::TheDuo);
    let cards = vec![c(Rank::King, Suit::Spades), c(Rank::King, Suit::Hearts)];
    let ctx = JokerContext {
        played_cards: &cards,
        scoring_indices: &[0, 1],
        hand_type: PokerHand::Pair,
        held_cards: &[],
        discards_remaining: 3,
        num_played: 2,
    };
    let effect = evaluate_joker(&joker, &ctx, None);
    match effect {
        JokerEffect::XMult(x) => assert!((x.num as f64 / x.den as f64 - 2.0).abs() < f64::EPSILON),
        _ => panic!("Expected XMult"),
    }
}

#[test]
fn test_banner_chips_per_discard() {
    let joker = Joker::new(JokerType::Banner);
    let cards = vec![c(Rank::Ace, Suit::Spades)];
    let ctx = JokerContext {
        played_cards: &cards,
        scoring_indices: &[0],
        hand_type: PokerHand::HighCard,
        held_cards: &[],
        discards_remaining: 3,
        num_played: 1,
    };
    let effect = evaluate_joker(&joker, &ctx, None);
    match effect {
        JokerEffect::AddChips(c) => assert_eq!(c, 90),
        _ => panic!("Expected AddChips"),
    }
}

#[test]
fn test_half_joker_small_hand() {
    let joker = Joker::new(JokerType::HalfJoker);
    let cards = vec![c(Rank::Ace, Suit::Spades), c(Rank::King, Suit::Hearts)];
    let ctx = JokerContext {
        played_cards: &cards,
        scoring_indices: &[0, 1],
        hand_type: PokerHand::HighCard,
        held_cards: &[],
        discards_remaining: 3,
        num_played: 2,
    };
    let effect = evaluate_joker(&joker, &ctx, None);
    match effect {
        JokerEffect::AddMult(m) => assert_eq!(m, 20),
        _ => panic!("Expected AddMult"),
    }
}

#[test]
fn blueprint_in_last_slot_has_no_effect() {
    let joker = Joker::new(JokerType::Blueprint);
    let cards = vec![c(Rank::Ace, Suit::Spades)];
    let ctx = JokerContext {
        played_cards: &cards,
        scoring_indices: &[0],
        hand_type: PokerHand::HighCard,
        held_cards: &[],
        discards_remaining: 3,
        num_played: 1,
    };
    assert!(matches!(evaluate_joker(&joker, &ctx, None), JokerEffect::NoEffect));
    assert!(matches!(evaluate_joker(&joker, &ctx, Some(JokerType::Banner)), JokerEffect::AddChips(90)));
}

#[test]
fn conditional_jokers_follow_hand_strength() {
    let cards = vec![c(Rank::Five, Suit::Spades), c(Rank::Six, Suit::Hearts)];
    let mut ctx = JokerContext {
        played_cards: &cards,
        scoring_indices: &[1],
        hand_type: PokerHand::HighCard,
        held_cards: &[],
        discards_remaining: 0,
        num_played: 5,
    };
    assert!(matches!(evaluate_joker(&Joker::new(JokerType::JollyJoker), &ctx, None), JokerEffect::NoEffect));
    assert!(matches!(evaluate_joker(&Joker::new(JokerType::HalfJoker), &ctx, None), JokerEffect::NoEffect));
    ctx.hand_type = PokerHand::StraightFlush;
    assert!(matches!(evaluate_joker(&Joker::new(JokerType::CrazyJoker), &ctx, None), JokerEffect::AddMult(12)));
    assert!(matches!(evaluate_joker(&Joker::new(JokerType::ZanyJoker), &ctx, None), JokerEffect::AddMult(12)));
    match evaluate_joker(&Joker::new(JokerType::TheTrio), &ctx, None) {
        JokerEffect::XMult(x) => assert_eq!((x.num, x.den), (3, 1)),
        _ => panic!("Expected XMult"),
    }
    assert!(matches!(evaluate_joker(&Joker::new(JokerType::Egg), &ctx, None), JokerEffect::NoEffect));
}

#[test]
fn per_card_jokers_pick_their_cards() {
    let cards = vec![c(Rank::Ace, Suit::Clubs), c(Rank::Three, Suit::Hearts), c(Rank::Ace, Suit::Spades), c(Rank::Eight, Suit::Clubs)];
    let ctx = JokerContext {
        played_cards: &cards,
        scoring_indices: &[0, 1, 2, 3],
        hand_type: PokerHand::Pair,
        held_cards: &[],
        discards_remaining: 0,
        num_played: 4,
    };
    match evaluate_joker(&Joker::new(JokerType::Scholar), &ctx, None) {
        JokerEffect::AddChipsAndMultPerCard { card_indices, chips_each, mult_each } => {
            assert_eq!(card_indices, vec![0, 2]);
            assert_eq!((chips_each, mult_each), (20, 4));
        }
        _ => panic!("Expected AddChipsAndMultPerCard"),
    }
    match evaluate_joker(&Joker::new(JokerType::OddTodd), &ctx, None) {
        JokerEffect::AddChipsPerCard { card_indices, chips_each } => {
            assert_eq!(card_indices, vec![1]);
            assert_eq!(chips_each, 31);
        }
        _ => panic!("Expected AddChipsPerCard"),
    }
    match evaluate_joker(&Joker::new(JokerType::Hack), &ctx, None) {
        JokerEffect::Retrigger { card_indices } => assert_eq!(card_indices, vec![1]),
        _ => panic!("Expected Retrigger"),
    }
    match evaluate_joker(&Joker::new(JokerType::GluttonousJoker), &ctx, None) {
        JokerEffect::AddMultPerCard { card_indices, .. } => assert_eq!(card_indices, vec![0, 3]),
        _ => panic!("Expected AddMultPerCard"),
    }
}

#[test]
fn blackboard_needs_dark_held_cards() {
    let played = vec![c(Rank::Ace, Suit::Spades)];
    let dark = vec![c(Rank::Two, Suit::Spades), c(Rank::Three, Suit::Clubs)];
    let ctx = JokerContext {
        played_cards: &played,
        scoring_indices: &[0],
        hand_type: PokerHand::HighCard,
        held_cards: &dark,
        discards_remaining: 0,
        num_played: 1,
    };
    assert!(matches!(evaluate_joker(&Joker::new(JokerType::Blackboard), &ctx, None), JokerEffect::XMult(_)));
    let mixed = vec![c(Rank::Two, Suit::Spades), c(Rank::Three, Suit::Hearts)];
    let ctx = JokerContext { held_cards: &mixed, ..ctx };
    assert!(matches!(evaluate_joker(&Joker::new(JokerType::Blackboard), &ctx, None), JokerEffect::NoEffect));
}

#[test]
fn joker_prices_and_sell_values() {
    assert_eq!(JokerType::Joker.rarity(), JokerRarity::Common);
    assert_eq!(JokerType::Blueprint.price(), 8);
    assert_eq!(JokerRarity::Legendary.base_price(), 20);
    let mut egg = Joker::new(JokerType::Egg);
    assert_eq!(egg.sell_value, 2);
    egg.bonus_sell = 3;
    assert_eq!(egg.total_sell_value(), 5);
    assert_eq!(JokerType::all().len(), 20);
    assert_eq!(JokerType::Scholar.name(), "Scholar");
}
