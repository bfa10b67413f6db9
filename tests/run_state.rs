use balatrust_core::blind::score_target;
use balatrust_core::{GamePhase, ScreenAction, Session};
use balatrust_core::{
    ante_base_chips, AntePhase, BlindOutcome, BlindType, BossBlind, Consumable, Enhancement, Joker,
    JokerType, PlanetCard, PokerHand, Rank, RunState, Shop, ShopItem, Suit, TarotCard,
};
use rand::rngs::StdRng;
use rand::SeedableRng;

fn snapshot(r: &RunState) -> (Vec<balatrust_core::PlayingCard>, Option<Vec<ShopItem>>, BossBlind, u8, u32) {
    (r.hand.clone(), r.shop.as_ref().map(|s| s.items.clone()), r.boss_blind, r.ante, r.money)
}

#[test]
fn same_seed_same_run() {
    let mut a = RunState::with_seed(99);
    let mut b = RunState::with_seed(99);
    assert_eq!(snapshot(&a), snapshot(&b));
    for round in 0..6 {
        a.start_blind();
        b.start_blind();
        assert_eq!(snapshot(&a), snapshot(&b));
        a.toggle_select(0);
        b.toggle_select(0);
        a.discard_selected();
        b.discard_selected();
        assert_eq!(snapshot(&a), snapshot(&b));
        a.add_score(1_000_000);
        b.add_score(1_000_000);
        a.beat_blind();
        b.beat_blind();
        assert_eq!(snapshot(&a), snapshot(&b));
        if round % 2 == 0 {
            a.reroll_shop();
            b.reroll_shop();
            assert_eq!(snapshot(&a), snapshot(&b));
        }
        a.leave_shop();
        b.leave_shop();
        assert_eq!(snapshot(&a), snapshot(&b));
    }
    assert_eq!(a.ante, 3);
}

#[test]
fn new_run_starts_at_small_blind() {
    let r = RunState::with_seed(1);
    assert_eq!(r.ante, 1);
    assert_eq!(r.blind_type, BlindType::Small);
    assert_eq!(r.ante_phase, AntePhase::BlindSelect);
    assert_eq!(r.money, 4);
    assert_eq!(r.score_target, 300);
    assert_eq!(r.deck.remaining(), 52);
    assert_eq!(r.blind_outcomes, [BlindOutcome::Active, BlindOutcome::Upcoming, BlindOutcome::Upcoming]);
    assert!(RunState::new().hand.is_empty());
}

#[test]
fn start_blind_draws_a_full_hand() {
    let mut r = RunState::with_seed(5);
    r.start_blind();
    assert_eq!(r.ante_phase, AntePhase::Playing);
    assert_eq!(r.hand.len(), 8);
    assert_eq!(r.deck.remaining(), 44);
    assert_eq!(r.hands_remaining, 4);
    assert_eq!(r.discards_remaining, 3);
}

#[test]
fn psychic_needs_exactly_five() {
    let mut r = RunState::with_seed(3);
    r.blind_type = BlindType::Boss(BossBlind::ThePsychic);
    r.start_blind();
    for i in 0..5 {
        assert!(!r.can_play());
        r.toggle_select(i);
    }
    assert!(r.can_play());
    r.toggle_select(5);
    assert_eq!(r.selected_indices.len(), 5);
    r.toggle_select(4);
    assert!(!r.can_play());
    r.hands_remaining = 0;
    assert!(!r.can_play());
}

#[test]
fn needle_leaves_one_hand_and_club_debuffs_clubs() {
    let mut r = RunState::with_seed(8);
    r.blind_type = BlindType::Boss(BossBlind::TheNeedle);
    r.start_blind();
    assert_eq!(r.hands_remaining, 1);
    r.blind_type = BlindType::Boss(BossBlind::TheClub);
    r.start_blind();
    for c in &r.hand {
        assert_eq!(c.debuffed, c.suit == Suit::Clubs);
    }
}

#[test]
fn play_and_discard_move_cards() {
    let mut r = RunState::with_seed(11);
    r.start_blind();
    let hand = r.hand.clone();
    r.toggle_select(3);
    r.toggle_select(1);
    assert_eq!(r.selected_cards(), vec![hand[3], hand[1]]);
    assert!(r.is_selected(1));
    let played = r.play_selected();
    assert_eq!(played, vec![hand[1], hand[3]]);
    assert_eq!(r.hand.len(), 6);
    assert!(r.selected_indices.is_empty());
    r.draw_to_hand_size();
    assert_eq!(r.hand.len(), 8);
    r.toggle_select(0);
    r.toggle_select(2);
    let first = r.hand[0];
    let third = r.hand[2];
    assert!(r.can_discard());
    assert!(r.use_discard());
    let discarded = r.discard_selected();
    assert_eq!(discarded, vec![third, first]);
    assert_eq!(r.hand.len(), 8);
    assert_eq!(r.deck.discard_count(), 2);
    assert_eq!(r.discards_remaining, 2);
}

#[test]
fn hook_discards_two_cards() {
    let mut r = RunState::with_seed(21);
    r.blind_type = BlindType::Boss(BossBlind::TheHook);
    r.start_blind();
    r.apply_hook_effect();
    assert_eq!(r.hand.len(), 6);
    assert_eq!(r.deck.discard_count(), 2);
    let mut other = RunState::with_seed(21);
    other.start_blind();
    other.apply_hook_effect();
    assert_eq!(other.hand.len(), 8);
}

#[test]
fn reward_breakdown_adds_up() {
    let mut r = RunState::with_seed(2);
    r.money = 23;
    r.hands_remaining = 2;
    r.jokers.push(Joker::new(JokerType::GoldenJoker));
    let b = r.calculate_reward_breakdown();
    assert_eq!(b.blind_reward, 3);
    assert_eq!(b.hands_bonus, 2);
    assert_eq!(b.interest, 4);
    assert_eq!(b.golden_joker_bonus, 4);
    assert_eq!(b.total, 13);
    assert_eq!(r.calculate_reward(), 13);
    r.money = 100;
    assert_eq!(r.calculate_reward_breakdown().interest, 5);
}

#[test]
fn beat_blind_pays_and_opens_shop() {
    let mut r = RunState::with_seed(4);
    r.jokers.push(Joker::new(JokerType::Egg));
    r.start_blind();
    r.add_score(400);
    assert!(r.blind_beaten());
    r.beat_blind();
    assert_eq!(r.money, 4 + 3 + 4);
    assert_eq!(r.ante_phase, AntePhase::Shop);
    assert!(r.hand.is_empty());
    assert_eq!(r.deck.discard_count(), 8);
    assert_eq!(r.jokers[0].bonus_sell, 3);
    assert_eq!(r.blind_outcomes[0], BlindOutcome::Beaten);
    let shop = r.shop.as_ref().unwrap();
    assert_eq!(shop.items.len(), 2);
    assert_eq!(shop.reroll_cost, 5);
    r.leave_shop();
    assert!(r.shop.is_none());
    assert_eq!(r.blind_type, BlindType::Big);
    assert_eq!(r.score_target, 450);
    assert_eq!(r.round_number(), 2);
}

#[test]
fn blinds_cycle_into_the_next_ante() {
    let mut r = RunState::with_seed(6);
    let boss = r.boss_blind;
    r.skip_blind();
    assert_eq!(r.blind_outcomes[0], BlindOutcome::Skipped);
    r.skip_blind();
    assert_eq!(r.blind_type, BlindType::Boss(boss));
    assert_eq!(r.current_blind_index(), 2);
    r.skip_blind();
    assert_eq!(r.ante, 2);
    assert_eq!(r.blind_type, BlindType::Small);
    assert_eq!(r.score_target, 800);
    assert!(!r.run_won());
    r.ante = 9;
    assert!(r.run_won());
}

#[test]
fn round_lost_when_out_of_hands() {
    let mut r = RunState::with_seed(7);
    r.start_blind();
    r.use_hand();
    r.use_hand();
    r.use_hand();
    assert!(!r.round_lost());
    r.use_hand();
    r.use_hand();
    assert_eq!(r.hands_remaining, 0);
    assert!(r.round_lost());
}

#[test]
fn buying_selling_and_rerolling() {
    let mut r = RunState::with_seed(12);
    r.money = 20;
    r.shop = Some(Shop {
        items: vec![
            ShopItem::JokerItem(Joker::new(JokerType::Joker)),
            ShopItem::ConsumableItem(Consumable::planet(PlanetCard::Mercury)),
        ],
        reroll_cost: 5,
    });
    assert!(!r.buy_shop_item(2));
    assert!(r.buy_shop_item(0));
    assert_eq!(r.money, 16);
    assert_eq!(r.jokers.len(), 1);
    assert!(r.buy_shop_item(0));
    assert_eq!(r.money, 13);
    assert_eq!(r.consumables.len(), 1);
    assert!(r.use_planet(0));
    assert_eq!(r.hand_levels.get_level(&PokerHand::Pair), 2);
    assert!(!r.use_planet(0));
    assert!(r.reroll_shop());
    assert_eq!(r.money, 8);
    assert_eq!(r.shop.as_ref().unwrap().reroll_cost, 6);
    assert!(r.reroll_shop());
    assert_eq!(r.money, 2);
    assert!(!r.reroll_shop());
    assert!(r.sell_joker(0));
    assert_eq!(r.money, 4);
    assert!(!r.sell_joker(0));
}

#[test]
fn buying_needs_money_and_slots() {
    let mut r = RunState::with_seed(13);
    r.money = 3;
    r.shop = Some(Shop { items: vec![ShopItem::JokerItem(Joker::new(JokerType::Joker))], reroll_cost: 5 });
    assert!(!r.buy_shop_item(0));
    r.money = 100;
    r.max_jokers = 0;
    assert!(!r.buy_shop_item(0));
    assert_eq!(r.money, 100);
}

#[test]
fn tarots_change_selected_cards() {
    let mut r = RunState::with_seed(14);
    r.start_blind();
    r.consumables.push(Consumable::tarot(TarotCard::TheEmpress));
    assert!(!r.use_tarot(0));
    r.toggle_select(2);
    let rank = r.hand[2].rank;
    assert!(r.use_tarot(0));
    assert_eq!(r.hand[2].enhancement, Some(Enhancement::Mult));
    r.consumables.push(Consumable::tarot(TarotCard::Strength));
    assert!(r.use_tarot(0));
    assert_eq!(r.hand[2].rank, rank.next());
    r.money = 15;
    r.consumables.push(Consumable::tarot(TarotCard::TheHermit));
    assert!(r.use_tarot(0));
    assert_eq!(r.money, 30);
    assert!(!r.use_tarot(0));
}

#[test]
fn sorting_the_hand() {
    let mut r = RunState::with_seed(15);
    r.start_blind();
    r.toggle_select(0);
    r.sort_hand_by_rank();
    assert!(r.selected_indices.is_empty());
    for w in r.hand.windows(2) {
        assert!((w[0].rank.value(), w[0].suit.order()) <= (w[1].rank.value(), w[1].suit.order()));
    }
    r.sort_hand_by_suit();
    for w in r.hand.windows(2) {
        assert!((w[0].suit.order(), w[0].rank.value()) <= (w[1].suit.order(), w[1].rank.value()));
    }
    assert_eq!(r.full_deck().len(), 52);
}

#[test]
fn blind_targets_and_names() {
    assert_eq!(ante_base_chips(1), 300);
    assert_eq!(ante_base_chips(8), 50_000);
    assert_eq!(ante_base_chips(10), 100_000);
    assert_eq!(score_target(1, &BlindType::Big), 450);
    assert_eq!(score_target(2, &BlindType::Boss(BossBlind::TheWall)), 3_200);
    assert_eq!(score_target(2, &BlindType::Boss(BossBlind::TheHook)), 1_600);
    assert_eq!(BlindType::Small.name(), "Small Blind");
    assert_eq!(BlindType::Boss(BossBlind::TheGoad).name(), "The Goad");
    assert!(BlindType::Big.can_skip());
    assert!(!BlindType::Boss(BossBlind::TheHead).can_skip());
    assert_eq!(BlindType::Boss(BossBlind::TheHead).reward(), 5);
    let r = RunState::with_seed(30);
    assert_eq!(r.blind_score_target(1), 450);
}

#[test]
fn consumable_texts() {
    assert_eq!(PlanetCard::Mercury.description(), "Level up Pair (+15 Chips, +1 Mult)");
    assert_eq!(PlanetCard::Eris.hand_type(), PokerHand::FlushFive);
    assert_eq!(TarotCard::Death.cards_needed(), (2, 2));
    assert_eq!(ShopItem::JokerItem(Joker::new(JokerType::Hack)).name(), "Hack");
    assert_eq!(ShopItem::ConsumableItem(Consumable::tarot(TarotCard::TheFool)).price(), 3);
    assert_eq!(ShopItem::ConsumableItem(Consumable::planet(PlanetCard::Pluto)).description(), "Level up High Card (+10 Chips, +1 Mult)");
}

#[test]
fn shop_generation_and_buying() {
    let mut rng = StdRng::seed_from_u64(3);
    let mut shop = Shop::generate(&mut rng, 1);
    assert_eq!(shop.items.len(), 2);
    assert_eq!(shop.reroll_cost, 5);
    shop.reroll(&mut rng, 1);
    assert_eq!(shop.reroll_cost, 6);
    assert!(shop.buy(5).is_none());
    assert!(shop.buy(0).is_some());
    assert_eq!(shop.items.len(), 1);
    let _ = Rank::Ace;
}

#[test]
fn session_walks_through_a_round() {
    let mut s = Session::new();
    assert_eq!(s.phase, GamePhase::MainMenu);
    assert!(!s.process_action(Some(ScreenAction::NewGame)));
    assert_eq!(s.phase, GamePhase::BlindSelect);
    s.process_action(Some(ScreenAction::StartBlind));
    assert_eq!(s.phase, GamePhase::Playing);
    s.process_action(Some(ScreenAction::ToggleCard(0)));
    s.process_action(Some(ScreenAction::PlayHand));
    assert!(s.pending.is_some());
    assert_eq!(s.game.as_ref().unwrap().hands_remaining, 3);
    s.process_action(Some(ScreenAction::FinishScoring));
    assert!(s.pending.is_none());
    let game = s.game.as_ref().unwrap();
    assert!(game.round_score > 0);
    assert_eq!(game.hand.len(), 8);
    s.process_action(Some(ScreenAction::BeatBlind));
    assert_eq!(s.phase, GamePhase::Shop);
    s.process_action(Some(ScreenAction::LeaveShop));
    assert_eq!(s.phase, GamePhase::BlindSelect);
    s.process_action(Some(ScreenAction::BackToMenu));
    assert!(s.game.is_none());
    assert!(s.process_action(Some(ScreenAction::Quit)));
}
