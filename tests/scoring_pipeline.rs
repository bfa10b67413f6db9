use balatrust_core::scoring::{calculate_score, calculate_score_with_jokers};
use balatrust_core::{
    Edition, Enhancement, HandLevels, Joker, JokerType, PlayingCard, PokerHand, Rank, ScoreStep,
    Suit,
};

fn c(rank: Rank, suit: Suit) -> PlayingCard {
    PlayingCard::new(rank, suit)
}

#[test]
fn test_pair_scoring() {
    let cards = vec![c(Rank::King, Suit::Spades), c(Rank::King, Suit::Hearts), c(Rank::Five, Suit::Clubs)];
    let levels = HandLevels::new();
    let result = calculate_score(&cards, &levels);
    assert_eq!(result.hand_type, PokerHand::Pair);
    assert_eq!(result.scoring_indices.len(), 2);
    assert_eq!(result.total_chips, 30);
    assert_eq!(result.total_mult, 2);
    assert_eq!(result.final_score, 60);
}

#[test]
fn test_flush_scoring() {
    let cards = vec![
        c(Rank::Two, Suit::Hearts),
        c(Rank::Five, Suit::Hearts),
        c(Rank::Eight, Suit::Hearts),
        c(Rank::Jack, Suit::Hearts),
        c(Rank::Ace, Suit::Hearts),
    ];
    let levels = HandLevels::new();
    let result = calculate_score(&cards, &levels);
    assert_eq!(result.hand_type, PokerHand::Flush);
    assert_eq!(result.total_chips, 71);
    assert_eq!(result.total_mult, 4);
    assert_eq!(result.final_score, 284);
}

#[test]
fn test_high_card_scoring() {
    let cards = vec![c(Rank::Ace, Suit::Spades)];
    let levels = HandLevels::new();
    let result = calculate_score(&cards, &levels);
    assert_eq!(result.hand_type, PokerHand::HighCard);
    assert_eq!(result.total_chips, 16);
    assert_eq!(result.total_mult, 1);
    assert_eq!(result.final_score, 16);
}

#[test]
fn test_leveled_hand() {
    let cards = vec![c(Rank::King, Suit::Spades), c(Rank::King, Suit::Hearts)];
    let mut levels = HandLevels::new();
    levels.level_up(PokerHand::Pair);
    assert_eq!(levels.chips_for(&PokerHand::Pair), 25);
    assert_eq!(levels.mult_for(&PokerHand::Pair), 3);
    let result = calculate_score(&cards, &levels);
    assert_eq!(result.hand_type, PokerHand::Pair);
    assert_eq!(result.total_chips, 45);
    assert_eq!(result.total_mult, 3);
    assert_eq!(result.final_score, 135);
}

#[test]
fn test_full_house_scoring() {
    let cards = vec![
        c(Rank::King, Suit::Spades),
        c(Rank::King, Suit::Hearts),
        c(Rank::King, Suit::Clubs),
        c(Rank::Five, Suit::Diamonds),
        c(Rank::Five, Suit::Spades),
    ];
    let levels = HandLevels::new();
    let result = calculate_score(&cards, &levels);
    assert_eq!(result.hand_type, PokerHand::FullHouse);
    assert_eq!(result.total_chips, 80);
    assert_eq!(result.total_mult, 4);
    assert_eq!(result.final_score, 320);
}

#[test]
fn scoring_twice_gives_the_same_result() {
    let cards = vec![c(Rank::Queen, Suit::Spades), c(Rank::Queen, Suit::Hearts), c(Rank::Two, Suit::Clubs)];
    let levels = HandLevels::new();
    let a = calculate_score(&cards, &levels);
    let b = calculate_score(&cards, &levels);
    assert_eq!(a.hand_type, b.hand_type);
    assert_eq!(a.scoring_indices, b.scoring_indices);
    assert_eq!(a.steps, b.steps);
    assert_eq!(a.total_chips, b.total_chips);
    assert_eq!(a.total_mult, b.total_mult);
    assert_eq!(a.final_score, b.final_score);
}

#[test]
fn step_log_lists_base_then_cards() {
    let cards = vec![c(Rank::King, Suit::Spades), c(Rank::King, Suit::Hearts), c(Rank::Five, Suit::Clubs)];
    let result = calculate_score(&cards, &HandLevels::new());
    assert_eq!(
        result.steps,
        vec![
            ScoreStep::BaseHand { hand_type: PokerHand::Pair, chips: 10, mult: 2 },
            ScoreStep::CardChips { card_index: 0, chips: 10 },
            ScoreStep::CardChips { card_index: 1, chips: 10 },
        ]
    );
}

#[test]
fn stone_card_scores_outside_the_hand() {
    let mut stone = c(Rank::Two, Suit::Diamonds);
    stone.enhancement = Some(Enhancement::Stone);
    let cards = vec![c(Rank::King, Suit::Spades), c(Rank::King, Suit::Hearts), stone];
    let result = calculate_score(&cards, &HandLevels::new());
    assert_eq!(result.total_chips, 80);
    assert_eq!(result.final_score, 160);
    assert_eq!(result.steps.last(), Some(&ScoreStep::CardChips { card_index: 2, chips: 50 }));
}

#[test]
fn glass_and_polychrome_multiply_then_round_up() {
    let mut poly = c(Rank::Ace, Suit::Spades);
    poly.edition = Edition::Polychrome;
    // High card: 5 + 11 chips, mult 1 * 3/2 rounds up to 2
    let result = calculate_score(&[poly], &HandLevels::new());
    assert_eq!(result.total_chips, 16);
    assert_eq!(result.total_mult, 2);
    assert_eq!(result.final_score, 32);
    let mut glass = c(Rank::Ace, Suit::Spades);
    glass.enhancement = Some(Enhancement::Glass);
    let result = calculate_score(&[glass], &HandLevels::new());
    assert_eq!(result.total_mult, 2);
    assert_eq!(result.final_score, 32);
}

#[test]
fn jokers_apply_in_slot_order() {
    let cards = vec![c(Rank::King, Suit::Spades), c(Rank::King, Suit::Hearts)];
    let jokers = vec![Joker::new(JokerType::Joker), Joker::new(JokerType::TheDuo)];
    let result = calculate_score_with_jokers(&cards, &HandLevels::new(), &jokers, &[], 3);
    // (10 + 20) chips; (2 + 4) * 2 mult
    assert_eq!(result.total_chips, 30);
    assert_eq!(result.total_mult, 12);
    assert_eq!(result.final_score, 360);
    assert_eq!(result.steps.len(), 5);
    assert!(matches!(result.steps[3], ScoreStep::JokerMult { joker_index: 0, mult: 4 }));
    assert!(matches!(result.steps[4], ScoreStep::JokerXMult { joker_index: 1, .. }));
}

#[test]
fn blueprint_copies_the_joker_to_its_right() {
    let cards = vec![c(Rank::King, Suit::Spades), c(Rank::King, Suit::Hearts)];
    let jokers = vec![Joker::new(JokerType::Blueprint), Joker::new(JokerType::Joker)];
    let result = calculate_score_with_jokers(&cards, &HandLevels::new(), &jokers, &[], 0);
    assert_eq!(result.total_mult, 10);
    let last = vec![Joker::new(JokerType::Joker), Joker::new(JokerType::Blueprint)];
    let result = calculate_score_with_jokers(&cards, &HandLevels::new(), &last, &[], 0);
    assert_eq!(result.total_mult, 6);
}

#[test]
fn hack_retriggers_low_cards() {
    let cards = vec![c(Rank::Three, Suit::Spades), c(Rank::Three, Suit::Hearts)];
    let jokers = vec![Joker::new(JokerType::Hack)];
    let result = calculate_score_with_jokers(&cards, &HandLevels::new(), &jokers, &[], 0);
    // 10 + 3 + 3, then both threes again
    assert_eq!(result.total_chips, 22);
    assert_eq!(result.final_score, 44);
}

#[test]
fn banner_and_steel_joker_through_scoring() {
    let cards = vec![c(Rank::Ace, Suit::Spades)];
    let mut steel = c(Rank::Two, Suit::Clubs);
    steel.enhancement = Some(Enhancement::Steel);
    let held = vec![steel, steel, steel, steel, steel];
    let jokers = vec![Joker::new(JokerType::Banner), Joker::new(JokerType::SteelJoker)];
    let result = calculate_score_with_jokers(&cards, &HandLevels::new(), &jokers, &held, 2);
    // chips 5 + 11 + 60; mult 1 * (1 + 5 * 0.2) = 2
    assert_eq!(result.total_chips, 76);
    assert_eq!(result.total_mult, 2);
    assert_eq!(result.final_score, 152);
}

#[test]
fn levels_only_go_up() {
    let mut levels = HandLevels::new();
    for h in PokerHand::all() {
        assert_eq!(levels.get_level(&h), 1);
    }
    let ups = [PokerHand::Pair, PokerHand::Flush, PokerHand::Pair];
    for h in ups {
        let before: Vec<u8> = PokerHand::all().iter().map(|p| levels.get_level(p)).collect();
        levels.level_up(h);
        for (i, p) in PokerHand::all().iter().enumerate() {
            assert!(levels.get_level(p) >= before[i]);
        }
    }
    assert_eq!(levels.get_level(&PokerHand::Pair), 3);
    assert_eq!(levels.get_level(&PokerHand::Flush), 2);
    assert_eq!(levels.chips_for(&PokerHand::Flush), 50);
    assert_eq!(levels.mult_for(&PokerHand::Flush), 6);
}

#[test]
fn card_steps_follow_ascending_positions() {
    let cards = vec![
        c(Rank::Two, Suit::Spades),
        c(Rank::Two, Suit::Hearts),
        c(Rank::King, Suit::Spades),
        c(Rank::King, Suit::Hearts),
    ];
    let result = calculate_score(&cards, &HandLevels::new());
    assert_eq!(result.hand_type, PokerHand::TwoPair);
    assert_eq!(result.scoring_indices, vec![2, 3, 0, 1]);
    assert_eq!(
        result.steps,
        vec![
            ScoreStep::BaseHand { hand_type: PokerHand::TwoPair, chips: 20, mult: 2 },
            ScoreStep::CardChips { card_index: 0, chips: 2 },
            ScoreStep::CardChips { card_index: 1, chips: 2 },
            ScoreStep::CardChips { card_index: 2, chips: 10 },
            ScoreStep::CardChips { card_index: 3, chips: 10 },
        ]
    );
    assert_eq!(result.final_score, 88);
}

#[test]
fn retriggers_follow_ascending_positions() {
    let cards = vec![
        c(Rank::Two, Suit::Spades),
        c(Rank::Two, Suit::Hearts),
        c(Rank::Five, Suit::Spades),
        c(Rank::Five, Suit::Hearts),
    ];
    let jokers = vec![Joker::new(JokerType::Hack)];
    let result = calculate_score_with_jokers(&cards, &HandLevels::new(), &jokers, &[], 0);
    let positions: Vec<usize> = result
        .steps
        .iter()
        .filter_map(|s| match s {
            ScoreStep::CardChips { card_index, .. } => Some(*card_index),
            _ => None,
        })
        .collect();
    assert_eq!(positions, vec![0, 1, 2, 3, 0, 1, 2, 3]);
}
