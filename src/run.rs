use rand::rngs::StdRng;
use vstd::prelude::*;

use crate::blind::{score_target, spec_score_target, BlindType, BossBlind};
use crate::card::{Enhancement, PlayingCard, Suit};
use crate::consumable::{Consumable, ConsumableType, TarotCard};
use crate::deck::{draw_count, standard_cards, top_of, Deck};
use crate::joker::{sat_add_u32, sat_add_u64, Joker, JokerType};
use crate::rng::{below, entropy_seed, rng_from_seed};
use crate::scoring::{leveled_up, HandLevels};
use crate::shop::{is_offerable, Shop, ShopItem, BASE_REROLL_COST, SHOP_SLOTS};

verus! {

/// The phase within an ante
#[derive(Debug, Clone, Copy, PartialEq, Eq, Structural)]
pub enum AntePhase {
    /// Choosing which blind to play/skip
    BlindSelect,
    /// Playing the current blind
    Playing,
    /// Viewing the shop
    Shop,
}

/// Outcome of a blind within an ante (for display on blind select screen)
#[derive(Debug, Clone, Copy, PartialEq, Eq, Structural)]
pub enum BlindOutcome {
    /// Not yet reached
    Upcoming,
    /// Currently the active blind to play
    Active,
    /// Was skipped by the player
    Skipped,
    /// Was beaten by the player
    Beaten,
}

/// Itemized breakdown of the reward for beating a blind
#[derive(Debug, Clone, Copy, PartialEq, Eq, Structural)]
pub struct RewardBreakdown {
    /// Base reward from the blind type ($3/$4/$5)
    pub blind_reward: u32,
    /// Bonus from remaining hands ($1 each)
    pub hands_bonus: u32,
    /// Number of hands remaining (for display)
    pub hands_remaining: u8,
    /// Interest earned ($1 per $5 held, max $5)
    pub interest: u32,
    /// Money held when interest was calculated (for display)
    pub money_held: u32,
    /// Bonus from Golden Jokers ($4 each)
    pub golden_joker_bonus: u32,
    /// Total payout
    pub total: u32,
}

/// Hands per blind.
pub const HANDS_PER_BLIND: u8 = 4;

/// Discards per blind.
pub const DISCARDS_PER_BLIND: u8 = 3;

/// Most cards that can be selected at once.
pub const MAX_SELECTED: usize = 5;

/// The last ante of a run; beating its boss wins.
pub const FINAL_ANTE: u8 = 8;

/// Complete run state
#[derive(Debug, Clone)]
pub struct RunState {
    pub ante: u8,
    pub blind_type: BlindType,
    pub ante_phase: AntePhase,
    pub money: u32,
    pub hands_remaining: u8,
    pub discards_remaining: u8,
    pub hand_size: u8,
    pub max_jokers: u8,
    pub max_consumables: u8,
    pub deck: Deck,
    pub hand: Vec<PlayingCard>,
    pub selected_indices: Vec<usize>,
    pub jokers: Vec<Joker>,
    pub consumables: Vec<Consumable>,
    pub hand_levels: HandLevels,
    pub round_score: u64,
    pub score_target: u64,
    pub boss_blind: BossBlind,
    pub rng: StdRng,
    /// Blinds beaten this ante (to track progression)
    pub blinds_beaten: u8,
    /// Per-blind outcomes for the current ante: [Small, Big, Boss]
    pub blind_outcomes: [BlindOutcome; 3],
    /// Shop state, present while shopping
    pub shop: Option<Shop>,
}

/// The suit a boss blind debuffs, if it debuffs one.
pub open spec fn debuff_suit(blind_type: BlindType) -> Option<Suit> {
    match blind_type {
        BlindType::Boss(BossBlind::TheClub) => Some(Suit::Clubs),
        BlindType::Boss(BossBlind::TheGoad) => Some(Suit::Spades),
        BlindType::Boss(BossBlind::TheWindow) => Some(Suit::Diamonds),
        BlindType::Boss(BossBlind::TheHead) => Some(Suit::Hearts),
        _ => None,
    }
}

/// The card with the blind's suit debuff applied.
pub open spec fn debuffed_card(c: PlayingCard, blind_type: BlindType) -> PlayingCard {
    match debuff_suit(blind_type) {
        Some(s) => if c.suit == s {
            PlayingCard { debuffed: true, ..c }
        } else {
            c
        },
        None => c,
    }
}

/// Every card with the blind's suit debuff applied.
pub open spec fn with_debuffs(cards: Seq<PlayingCard>, blind_type: BlindType) -> Seq<PlayingCard> {
    Seq::new(cards.len(), |i: int| debuffed_card(cards[i], blind_type))
}

/// Every card with its debuff cleared.
pub open spec fn cleared(cards: Seq<PlayingCard>) -> Seq<PlayingCard> {
    Seq::new(cards.len(), |i: int| PlayingCard { debuffed: false, ..cards[i] })
}

/// The 0-based position of a blind in its ante.
pub open spec fn blind_index(blind_type: BlindType) -> int {
    match blind_type {
        BlindType::Small => 0,
        BlindType::Big => 1,
        BlindType::Boss(_) => 2,
    }
}

/// The outcomes of a fresh ante: the Small blind active, the others to come.
pub open spec fn fresh_outcomes() -> Seq<BlindOutcome> {
    seq![BlindOutcome::Active, BlindOutcome::Upcoming, BlindOutcome::Upcoming]
}

/// `a + b`, held at `u8::MAX`.
pub open spec fn sat_add_u8(a: int, b: int) -> u8 {
    if a + b > u8::MAX {
        u8::MAX
    } else {
        (a + b) as u8
    }
}

/// Number of Golden Jokers among `jokers`.
pub open spec fn golden_count(jokers: Seq<Joker>) -> nat
    decreases jokers.len(),
{
    if jokers.len() == 0 {
        0
    } else {
        golden_count(jokers.drop_last()) + if jokers.last().joker_type == JokerType::GoldenJoker {
            1nat
        } else {
            0nat
        }
    }
}

proof fn lemma_golden_count_bound(jokers: Seq<Joker>)
    ensures
        golden_count(jokers) <= jokers.len(),
    decreases jokers.len(),
{
    if jokers.len() > 0 {
        lemma_golden_count_bound(jokers.drop_last());
    }
}

/// The reward for beating the current blind of a run in state `s`.
pub open spec fn reward_of(s: RunState) -> RewardBreakdown {
    let blind_reward = s.blind_type.spec_reward();
    let hands_bonus = s.hands_remaining as u32;
    let interest: u32 = if s.money / 5 < 5 {
        (s.money / 5) as u32
    } else {
        5
    };
    let golden = (golden_count(s.jokers@) * 4) as u32;
    RewardBreakdown {
        blind_reward,
        hands_bonus,
        hands_remaining: s.hands_remaining,
        interest,
        money_held: s.money,
        golden_joker_bonus: golden,
        total: (blind_reward + hands_bonus + interest + golden) as u32,
    }
}

/// Whether the player may play the selection: a hand is left, one to five cards are
/// selected, and exactly five against The Psychic.
pub open spec fn may_play(s: RunState) -> bool {
    let n = s.selected_indices@.len();
    &&& s.hands_remaining > 0
    &&& n > 0
    &&& n <= MAX_SELECTED
    &&& (s.blind_type == BlindType::Boss(BossBlind::ThePsychic) ==> n == MAX_SELECTED)
}

impl RunState {
    /// What every run state keeps: an ante of at least 1, at most five distinct selected
    /// positions, and no more jokers or consumables than there are slots.
    pub open spec fn wf(&self) -> bool {
        &&& self.ante >= 1
        &&& self.selected_indices@.len() <= MAX_SELECTED
        &&& self.selected_indices@.no_duplicates()
        &&& self.jokers@.len() <= self.max_jokers
        &&& self.consumables@.len() <= self.max_consumables
    }

    /// A run from a seed: ante 1, Small blind to select, $4, 4 hands, 3 discards, a hand size
    /// of 8, five joker and two consumable slots, a shuffled standard deck and every hand at
    /// level 1.
    pub fn with_seed(seed: u64) -> (r: Self)
        ensures
            r.wf(),
            r.ante == 1,
            r.blind_type == BlindType::Small,
            r.ante_phase == AntePhase::BlindSelect,
            r.money == 4,
            r.hands_remaining == HANDS_PER_BLIND,
            r.discards_remaining == DISCARDS_PER_BLIND,
            r.hand_size == 8,
            r.max_jokers == 5,
            r.max_consumables == 2,
            r.deck.draw_pile().to_multiset() == standard_cards().to_multiset(),
            r.deck.draw_pile().len() == 52,
            r.deck.discard_pile() == Seq::<PlayingCard>::empty(),
            r.hand@ == Seq::<PlayingCard>::empty(),
            r.selected_indices@ == Seq::<usize>::empty(),
            r.jokers@ == Seq::<Joker>::empty(),
            r.consumables@ == Seq::<Consumable>::empty(),
            r.hand_levels@ == Seq::new(13, |i: int| 1u8),
            r.round_score == 0,
            r.score_target == spec_score_target(1, BlindType::Small),
            r.blinds_beaten == 0,
            r.blind_outcomes@ == fresh_outcomes(),
            r.shop is None,
    {
        let mut rng = rng_from_seed(seed);
        let mut deck = Deck::standard();
        deck.shuffle(&mut rng);
        let boss = RunState::random_boss(&mut rng);
        let blind_type = BlindType::Small;
        let ante: u8 = 1;
        let target = score_target(ante, &blind_type);
        let r = RunState {
            ante,
            blind_type,
            ante_phase: AntePhase::BlindSelect,
            money: 4,
            hands_remaining: HANDS_PER_BLIND,
            discards_remaining: DISCARDS_PER_BLIND,
            hand_size: 8,
            max_jokers: 5,
            max_consumables: 2,
            deck,
            hand: Vec::new(),
            selected_indices: Vec::new(),
            jokers: Vec::new(),
            consumables: Vec::new(),
            hand_levels: HandLevels::new(),
            round_score: 0,
            score_target: target,
            boss_blind: boss,
            rng,
            blinds_beaten: 0,
            blind_outcomes: [BlindOutcome::Active, BlindOutcome::Upcoming, BlindOutcome::Upcoming],
            shop: None,
        };
        assert(r.blind_outcomes@ =~= fresh_outcomes());
        r
    }

    /// A run seeded from the thread's entropy source.
    pub fn new() -> (r: Self)
        ensures
            is_new_run(r),
    {
        RunState::with_seed(entropy_seed())
    }

    fn random_boss(rng: &mut StdRng) -> (r: BossBlind) {
        let all = BossBlind::all();
        let idx = below(rng, all.len());
        all[idx]
    }

    /// Add score from a hand (held at `u64::MAX`).
    pub fn add_score(&mut self, score: u64)
        ensures
            score_added(*old(self), *final(self), score),
    {
        self.round_score = self.round_score.saturating_add(score);
    }

    /// Use a hand (after playing); nothing when none are left.
    pub fn use_hand(&mut self)
        ensures
            hand_used(*old(self), *final(self)),
    {
        if self.hands_remaining > 0 {
            self.hands_remaining = self.hands_remaining - 1;
        }
    }

    /// Use a discard; false (and nothing changes) when none are left.
    pub fn use_discard(&mut self) -> (r: bool)
        ensures
            discard_used(*old(self), *final(self), r),
    {
        if self.discards_remaining > 0 {
            self.discards_remaining = self.discards_remaining - 1;
            true
        } else {
            false
        }
    }

    /// Check if the blind is beaten
    pub fn blind_beaten(&self) -> (r: bool)
        ensures
            r == (self.round_score >= self.score_target),
    {
        self.round_score >= self.score_target
    }

    /// Check if the round is lost (no hands left and target not met)
    pub fn round_lost(&self) -> (r: bool)
        ensures
            r == (self.hands_remaining == 0 && self.round_score < self.score_target),
    {
        self.hands_remaining == 0 && !self.blind_beaten()
    }

    /// The run is won once the ante passes the final one.
    pub open spec fn run_won_spec(&self) -> bool {
        self.ante > FINAL_ANTE
    }

    /// Check if the entire run is won (beat the final ante)
    pub fn run_won(&self) -> (r: bool)
        ensures
            r == self.run_won_spec(),
    {
        self.ante > FINAL_ANTE
    }

    /// Itemized reward for beating the current blind: the blind's reward, $1 per hand left,
    /// $1 of interest per $5 held (at most $5) and $4 per Golden Joker.
    pub fn calculate_reward_breakdown(&self) -> (r: RewardBreakdown)
        requires
            self.wf(),
        ensures
            r == reward_of(*self),
    {
        let blind_reward = self.blind_type.reward();
        let hands_bonus = self.hands_remaining as u32;
        let interest: u32 = if self.money / 5 < 5 { self.money / 5 } else { 5 };
        let mut golden: u32 = 0;
        let mut k: usize = 0;
        proof {
            lemma_golden_count_bound(self.jokers@);
        }
        while k < self.jokers.len()
            invariant
                k <= self.jokers@.len(),
                self.jokers@.len() <= 255,
                golden == golden_count(self.jokers@.take(k as int)),
            decreases self.jokers@.len() - k,
        {
            proof {
                assert(self.jokers@.take(k as int + 1).drop_last() =~= self.jokers@.take(k as int));
                lemma_golden_count_bound(self.jokers@.take(k as int));
            }
            if self.jokers[k].joker_type == JokerType::GoldenJoker {
                golden = golden + 1;
            }
            k += 1;
        }
        proof {
            assert(self.jokers@.take(self.jokers@.len() as int) =~= self.jokers@);
        }
        let golden_joker_bonus = golden * 4;
        let total = blind_reward + hands_bonus + interest + golden_joker_bonus;
        RewardBreakdown {
            blind_reward,
            hands_bonus,
            hands_remaining: self.hands_remaining,
            interest,
            money_held: self.money,
            golden_joker_bonus,
            total,
        }
    }

    /// Calculate money earned after beating a blind
    pub fn calculate_reward(&self) -> (r: u32)
        requires
            self.wf(),
        ensures
            r == reward_of(*self).total,
    {
        self.calculate_reward_breakdown().total
    }

    /// Check if a hand index is selected
    pub fn is_selected(&self, idx: usize) -> (r: bool)
        ensures
            r == self.selected_indices@.contains(idx),
    {
        let mut k: usize = 0;
        while k < self.selected_indices.len()
            invariant
                k <= self.selected_indices@.len(),
                forall|j: int| 0 <= j < k ==> self.selected_indices@[j] != idx,
            decreases self.selected_indices@.len() - k,
        {
            if self.selected_indices[k] == idx {
                assert(self.selected_indices@[k as int] == idx);
                return true;
            }
            k += 1;
        }
        false
    }

    /// Can the player play a hand right now?
    pub fn can_play(&self) -> (r: bool)
        ensures
            r == may_play(*self),
    {
        if self.hands_remaining == 0 || self.selected_indices.len() == 0 {
            return false;
        }
        if self.selected_indices.len() > MAX_SELECTED {
            return false;
        }
        match self.blind_type {
            BlindType::Boss(BossBlind::ThePsychic) => {
                if self.selected_indices.len() != MAX_SELECTED {
                    return false;
                }
            },
            _ => {},
        }
        true
    }

    /// Can the player discard right now?
    pub fn can_discard(&self) -> (r: bool)
        ensures
            r == (self.discards_remaining > 0 && self.selected_indices@.len() > 0),
    {
        self.discards_remaining > 0 && self.selected_indices.len() > 0
    }

    /// The position of the current blind in its ante, counted from 1.
    pub fn round_number(&self) -> (r: u8)
        ensures
            r == blind_index(self.blind_type) + 1,
    {
        match self.blind_type {
            BlindType::Small => 1,
            BlindType::Big => 2,
            BlindType::Boss(_) => 3,
        }
    }

    /// Get the 0-based index of the current blind (0=Small, 1=Big, 2=Boss)
    pub fn current_blind_index(&self) -> (r: usize)
        ensures
            r == blind_index(self.blind_type),
    {
        match self.blind_type {
            BlindType::Small => 0,
            BlindType::Big => 1,
            BlindType::Boss(_) => 2,
        }
    }

    /// The score target of a blind slot of the current ante (0=Small, 1=Big, else the boss).
    pub fn blind_score_target(&self, index: usize) -> (r: u64)
        requires
            self.wf(),
        ensures
            r == spec_score_target(
                self.ante,
                if index == 0 {
                    BlindType::Small
                } else if index == 1 {
                    BlindType::Big
                } else {
                    BlindType::Boss(self.boss_blind)
                },
            ),
    {
        let blind_type = match index {
            0 => BlindType::Small,
            1 => BlindType::Big,
            _ => BlindType::Boss(self.boss_blind),
        };
        score_target(self.ante, &blind_type)
    }
}

/// The cards at the selected positions, in hand order (positions past the end are ignored).
pub open spec fn picked(hand: Seq<PlayingCard>, sel: Seq<usize>, n: int) -> Seq<PlayingCard>
    decreases n,
{
    if n <= 0 {
        seq![]
    } else if sel.contains((n - 1) as usize) {
        picked(hand, sel, n - 1).push(hand[n - 1])
    } else {
        picked(hand, sel, n - 1)
    }
}

/// The cards at the positions not selected, in hand order.
pub open spec fn kept(hand: Seq<PlayingCard>, sel: Seq<usize>, n: int) -> Seq<PlayingCard>
    decreases n,
{
    if n <= 0 {
        seq![]
    } else if sel.contains((n - 1) as usize) {
        kept(hand, sel, n - 1)
    } else {
        kept(hand, sel, n - 1).push(hand[n - 1])
    }
}

/// The selected cards in selection order (positions past the end are skipped).
pub open spec fn selected_of(hand: Seq<PlayingCard>, sel: Seq<usize>) -> Seq<PlayingCard>
    decreases sel.len(),
{
    if sel.len() == 0 {
        seq![]
    } else if (sel.last() as int) < hand.len() {
        selected_of(hand, sel.drop_last()).push(hand[sel.last() as int])
    } else {
        selected_of(hand, sel.drop_last())
    }
}

/// `a - b`, or 0 when `b > a`.
pub open spec fn sat_sub(a: int, b: int) -> int {
    if b > a {
        0
    } else {
        a - b
    }
}

/// Every Egg gains $3 of sell value (held at `u32::MAX`).
pub open spec fn eggs_aged(jokers: Seq<Joker>) -> Seq<Joker> {
    Seq::new(
        jokers.len(),
        |i: int|
            if jokers[i].joker_type == JokerType::Egg {
                Joker { bonus_sell: sat_add_u32(jokers[i].bonus_sell as int, 3), ..jokers[i] }
            } else {
                jokers[i]
            },
    )
}

/// `next` is the run after moving on from the blind of `prev`, whose outcomes were set to
/// `marked`: Small to Big, Big to the ante's boss, and after the boss the Small blind of
/// the next ante with a new boss. Only the blind, the ante's bookkeeping, the phase and
/// the target change.
pub open spec fn advanced(prev: RunState, marked: Seq<BlindOutcome>, next: RunState) -> bool {
    &&& match prev.blind_type {
        BlindType::Small => {
            &&& next.blind_type == BlindType::Big
            &&& next.blind_outcomes@ == marked.update(1, BlindOutcome::Active)
            &&& next.ante == prev.ante
            &&& next.blinds_beaten == prev.blinds_beaten
            &&& next.boss_blind == prev.boss_blind
        },
        BlindType::Big => {
            &&& next.blind_type == BlindType::Boss(prev.boss_blind)
            &&& next.blind_outcomes@ == marked.update(2, BlindOutcome::Active)
            &&& next.ante == prev.ante
            &&& next.blinds_beaten == prev.blinds_beaten
            &&& next.boss_blind == prev.boss_blind
        },
        BlindType::Boss(_) => {
            &&& next.blind_type == BlindType::Small
            &&& next.blind_outcomes@ == fresh_outcomes()
            &&& next.ante == sat_add_u8(prev.ante as int, 1)
            &&& next.blinds_beaten == 0
        },
    }
    &&& next.ante_phase == AntePhase::BlindSelect
    &&& next.score_target == spec_score_target(next.ante, next.blind_type)
    &&& next.money == prev.money
    &&& next.hands_remaining == prev.hands_remaining
    &&& next.discards_remaining == prev.discards_remaining
    &&& next.hand_size == prev.hand_size
    &&& next.max_jokers == prev.max_jokers
    &&& next.max_consumables == prev.max_consumables
    &&& next.deck == prev.deck
    &&& next.hand == prev.hand
    &&& next.selected_indices == prev.selected_indices
    &&& next.jokers == prev.jokers
    &&& next.consumables == prev.consumables
    &&& next.hand_levels == prev.hand_levels
    &&& next.round_score == prev.round_score
}

/// Whether buying item `index` is allowed: the shop is open and has it, the player can
/// pay for it, and a slot of its kind is free.
pub open spec fn can_buy(s: RunState, index: int) -> bool {
    match s.shop {
        Some(shop) => 0 <= index < shop.items@.len() && s.money >= shop.items@[index].spec_price()
            && match shop.items@[index] {
            ShopItem::JokerItem(_) => s.jokers@.len() < s.max_jokers,
            ShopItem::ConsumableItem(_) => s.consumables@.len() < s.max_consumables,
        },
        None => false,
    }
}

/// The hand with `e` set as the enhancement of every selected position.
pub open spec fn enhanced(hand: Seq<PlayingCard>, sel: Seq<usize>, e: Enhancement) -> Seq<
    PlayingCard,
> {
    Seq::new(
        hand.len(),
        |i: int|
            if sel.contains(i as usize) {
                PlayingCard { enhancement: Some(e), ..hand[i] }
            } else {
                hand[i]
            },
    )
}

/// The hand with every selected position raised one rank (Ace wraps to Two).
pub open spec fn ranked_up(hand: Seq<PlayingCard>, sel: Seq<usize>) -> Seq<PlayingCard> {
    Seq::new(
        hand.len(),
        |i: int|
            if sel.contains(i as usize) {
                PlayingCard { rank: hand[i].rank.spec_next(), ..hand[i] }
            } else {
                hand[i]
            },
    )
}

/// The first selected position alone, or nothing.
pub open spec fn first_only(sel: Seq<usize>) -> Seq<usize> {
    if sel.len() == 0 {
        seq![]
    } else {
        seq![sel[0]]
    }
}

/// Total sell value of the jokers.
pub open spec fn sell_sum(jokers: Seq<Joker>) -> int
    decreases jokers.len(),
{
    if jokers.len() == 0 {
        0
    } else {
        sell_sum(jokers.drop_last()) + jokers.last().spec_total_sell_value()
    }
}

/// The selection fits what the tarot asks for (tarots that ask for no card take any).
pub open spec fn tarot_selection_ok(t: TarotCard, n: int) -> bool {
    let (lo, hi) = t.spec_cards_needed();
    lo == 0 || (lo <= n && n <= hi)
}

/// The run after using tarot `t` (before the card is removed): enhancement tarots set the
/// enhancement of the selected cards (The Lover and The Chariot of the first one only),
/// Strength raises their rank, The Hermit doubles money up to $20 more, Temperance adds the
/// jokers' sell value up to $50; the rest do nothing yet.
pub open spec fn tarot_effect(s: RunState, t: TarotCard, next: RunState) -> bool {
    let sel = s.selected_indices@;
    let hand = s.hand@;
    let money_gain: int = match t {
        TarotCard::TheHermit => if s.money < 20 {
            s.money as int
        } else {
            20
        },
        TarotCard::Temperance => if sell_sum(s.jokers@) < 50 {
            sell_sum(s.jokers@)
        } else {
            50
        },
        _ => 0,
    };
    &&& next.hand@ == match t {
        TarotCard::TheHierophant => enhanced(hand, sel, Enhancement::Bonus),
        TarotCard::TheEmpress => enhanced(hand, sel, Enhancement::Mult),
        TarotCard::TheMagician => enhanced(hand, sel, Enhancement::Lucky),
        TarotCard::TheLover => enhanced(hand, first_only(sel), Enhancement::Wild),
        TarotCard::TheChariot => enhanced(hand, first_only(sel), Enhancement::Steel),
        TarotCard::Strength => ranked_up(hand, sel),
        _ => hand,
    }
    &&& next.money == sat_add_u32(s.money as int, money_gain)
}

fn debuff_suit_of(blind_type: &BlindType) -> (r: Option<Suit>)
    ensures
        r == debuff_suit(*blind_type),
{
    match blind_type {
        BlindType::Boss(BossBlind::TheClub) => Some(Suit::Clubs),
        BlindType::Boss(BossBlind::TheGoad) => Some(Suit::Spades),
        BlindType::Boss(BossBlind::TheWindow) => Some(Suit::Diamonds),
        BlindType::Boss(BossBlind::TheHead) => Some(Suit::Hearts),
        _ => None,
    }
}

fn debuffed_cards(cards: &Vec<PlayingCard>, blind_type: &BlindType) -> (r: Vec<PlayingCard>)
    ensures
        r@ == with_debuffs(cards@, *blind_type),
{
    let suit = debuff_suit_of(blind_type);
    let mut out: Vec<PlayingCard> = Vec::new();
    let mut i: usize = 0;
    while i < cards.len()
        invariant
            i <= cards@.len(),
            suit == debuff_suit(*blind_type),
            out@ == with_debuffs(cards@, *blind_type).take(i as int),
        decreases cards@.len() - i,
    {
        let mut c = cards[i];
        match suit {
            Some(s) => {
                if c.suit == s {
                    c.debuffed = true;
                }
            },
            None => {},
        }
        out.push(c);
        proof {
            assert(out@ =~= with_debuffs(cards@, *blind_type).take(i as int + 1));
        }
        i += 1;
    }
    proof {
        assert(out@ =~= with_debuffs(cards@, *blind_type));
    }
    out
}

fn cleared_cards(cards: &Vec<PlayingCard>) -> (r: Vec<PlayingCard>)
    ensures
        r@ == cleared(cards@),
{
    let mut out: Vec<PlayingCard> = Vec::new();
    let mut i: usize = 0;
    while i < cards.len()
        invariant
            i <= cards@.len(),
            out@ == cleared(cards@).take(i as int),
        decreases cards@.len() - i,
    {
        let mut c = cards[i];
        c.debuffed = false;
        out.push(c);
        proof {
            assert(out@ =~= cleared(cards@).take(i as int + 1));
        }
        i += 1;
    }
    proof {
        assert(out@ =~= cleared(cards@));
    }
    out
}

fn aged_jokers(jokers: &Vec<Joker>) -> (r: Vec<Joker>)
    ensures
        r@ == eggs_aged(jokers@),
{
    let mut out: Vec<Joker> = Vec::new();
    let mut i: usize = 0;
    while i < jokers.len()
        invariant
            i <= jokers@.len(),
            out@ == eggs_aged(jokers@).take(i as int),
        decreases jokers@.len() - i,
    {
        let mut j = jokers[i];
        if j.joker_type == JokerType::Egg {
            j.bonus_sell = j.bonus_sell.saturating_add(3);
        }
        out.push(j);
        proof {
            assert(out@ =~= eggs_aged(jokers@).take(i as int + 1));
        }
        i += 1;
    }
    proof {
        assert(out@ =~= eggs_aged(jokers@));
    }
    out
}

impl RunState {
    /// Apply boss blind suit debuffs to hand cards
    fn apply_boss_debuffs(&mut self)
        ensures
            final(self).hand@ == with_debuffs(old(self).hand@, old(self).blind_type),
            *final(self) == (RunState { hand: final(self).hand, ..*old(self) }),
    {
        self.hand = debuffed_cards(&self.hand, &self.blind_type);
    }

    /// Start playing a blind: reset the round, reshuffle the whole deck, draw a full hand and
    /// apply the boss's suit debuff to it. The Needle leaves a single hand.
    pub fn start_blind(&mut self)
        requires
            old(self).wf(),
        ensures
            final(self).wf(),
            blind_started(*old(self), *final(self)),
    {
        self.ante_phase = AntePhase::Playing;
        self.round_score = 0;
        self.hands_remaining = HANDS_PER_BLIND;
        self.discards_remaining = DISCARDS_PER_BLIND;
        self.selected_indices.clear();
        self.score_target = score_target(self.ante, &self.blind_type);
        match self.blind_type {
            BlindType::Boss(BossBlind::TheNeedle) => {
                self.hands_remaining = 1;
            },
            _ => {},
        }
        self.deck.reset_and_shuffle(&mut self.rng);
        let ghost pile = self.deck.draw_pile();
        let size = self.hand_size as usize;
        self.hand = self.deck.draw(size);
        self.apply_boss_debuffs();
        proof {
            assert(pile.to_multiset() == (old(self).deck.draw_pile()
                + old(self).deck.discard_pile()).to_multiset());
        }
    }

    /// Advance to the next blind in sequence
    fn advance_blind(&mut self)
        requires
            old(self).wf(),
        ensures
            final(self).wf(),
            advanced(*old(self), old(self).blind_outcomes@, *final(self)),
            final(self).shop == old(self).shop,
    {
        match self.blind_type {
            BlindType::Small => {
                self.blind_type = BlindType::Big;
                self.blind_outcomes[1] = BlindOutcome::Active;
            },
            BlindType::Big => {
                self.blind_type = BlindType::Boss(self.boss_blind);
                self.blind_outcomes[2] = BlindOutcome::Active;
            },
            BlindType::Boss(_) => {
                self.ante = self.ante.saturating_add(1);
                self.blinds_beaten = 0;
                self.boss_blind = RunState::random_boss(&mut self.rng);
                self.blind_type = BlindType::Small;
                self.blind_outcomes = [
                    BlindOutcome::Active,
                    BlindOutcome::Upcoming,
                    BlindOutcome::Upcoming,
                ];
            },
        }
        self.ante_phase = AntePhase::BlindSelect;
        self.score_target = score_target(self.ante, &self.blind_type);
        proof {
            assert(self.blind_outcomes@ =~= match old(self).blind_type {
                BlindType::Small => old(self).blind_outcomes@.update(1, BlindOutcome::Active),
                BlindType::Big => old(self).blind_outcomes@.update(2, BlindOutcome::Active),
                BlindType::Boss(_) => fresh_outcomes(),
            });
        }
    }

    /// Skip the current blind: mark it skipped and move on to the next one.
    pub fn skip_blind(&mut self)
        requires
            old(self).wf(),
        ensures
            final(self).wf(),
            blind_skipped(*old(self), *final(self)),
    {
        let blind_index = self.current_blind_index();
        self.blind_outcomes[blind_index] = BlindOutcome::Skipped;
        self.advance_blind();
    }

    /// Leave the shop and advance to next blind
    pub fn leave_shop(&mut self)
        requires
            old(self).wf(),
        ensures
            final(self).wf(),
            shop_left(*old(self), *final(self)),
    {
        self.shop = None;
        self.advance_blind();
    }

    /// Beat the current blind: collect the reward, mark the blind beaten, age the Eggs, put
    /// the hand (debuffs cleared) on the discard pile and open a freshly stocked shop.
    pub fn beat_blind(&mut self)
        requires
            old(self).wf(),
        ensures
            final(self).wf(),
            blind_cashed_out(*old(self), *final(self)),
    {
        let reward = self.calculate_reward();
        self.money = self.money.saturating_add(reward);
        self.blinds_beaten = self.blinds_beaten.saturating_add(1);
        let blind_index = self.current_blind_index();
        self.blind_outcomes[blind_index] = BlindOutcome::Beaten;
        self.jokers = aged_jokers(&self.jokers);
        self.ante_phase = AntePhase::Shop;
        let hand_cards = cleared_cards(&self.hand);
        self.hand = Vec::new();
        self.deck.discard_cards(hand_cards.as_slice());
        self.selected_indices.clear();
        let shop = Shop::generate(&mut self.rng, self.ante);
        self.shop = Some(shop);
    }
}

fn contains_usize(v: &Vec<usize>, x: usize) -> (r: bool)
    ensures
        r == v@.contains(x),
{
    let mut k: usize = 0;
    while k < v.len()
        invariant
            k <= v@.len(),
            forall|j: int| 0 <= j < k ==> v@[j] != x,
        decreases v@.len() - k,
    {
        if v[k] == x {
            assert(v@[k as int] == x);
            return true;
        }
        k += 1;
    }
    false
}

/// Split a hand into the selected cards and the others, both in hand order.
fn split_selected(hand: &Vec<PlayingCard>, sel: &Vec<usize>) -> (r: (Vec<PlayingCard>, Vec<
    PlayingCard,
>))
    ensures
        r.0@ == picked(hand@, sel@, hand@.len() as int),
        r.1@ == kept(hand@, sel@, hand@.len() as int),
{
    let mut chosen: Vec<PlayingCard> = Vec::new();
    let mut rest: Vec<PlayingCard> = Vec::new();
    let mut i: usize = 0;
    while i < hand.len()
        invariant
            i <= hand@.len(),
            chosen@ == picked(hand@, sel@, i as int),
            rest@ == kept(hand@, sel@, i as int),
        decreases hand@.len() - i,
    {
        if contains_usize(sel, i) {
            chosen.push(hand[i]);
        } else {
            rest.push(hand[i]);
        }
        i += 1;
    }
    (chosen, rest)
}

fn reversed(v: &Vec<PlayingCard>) -> (r: Vec<PlayingCard>)
    ensures
        r@ == v@.reverse(),
{
    let mut out: Vec<PlayingCard> = Vec::new();
    let mut i: usize = v.len();
    while i > 0
        invariant
            i <= v@.len(),
            out@ == v@.reverse().take(v@.len() - i),
        decreases i,
    {
        i -= 1;
        out.push(v[i]);
        proof {
            assert(out@ =~= v@.reverse().take(v@.len() - i));
        }
    }
    proof {
        assert(out@ =~= v@.reverse());
    }
    out
}

fn append_cards(dst: &mut Vec<PlayingCard>, src: Vec<PlayingCard>)
    ensures
        final(dst)@ == old(dst)@ + src@,
{
    let mut src = src;
    dst.append(&mut src);
}

impl RunState {
    /// Play the selection: take the selected cards out of the hand and return them in hand
    /// order; the selection is cleared.
    pub fn play_selected(&mut self) -> (played: Vec<PlayingCard>)
        ensures
            cards_played(*old(self), *final(self), played@),
    {
        let (played, rest) = split_selected(&self.hand, &self.selected_indices);
        self.hand = rest;
        self.selected_indices.clear();
        played
    }

    /// Discard the selection: the selected cards leave the hand (returned from the highest
    /// position down) for the discard pile, the hand is refilled up to the hand size and the
    /// boss's suit debuff is applied to it.
    pub fn discard_selected(&mut self) -> (discarded: Vec<PlayingCard>)
        ensures
            cards_discarded(*old(self), *final(self), discarded@),
    {
        let (chosen, rest) = split_selected(&self.hand, &self.selected_indices);
        let discarded = reversed(&chosen);
        self.deck.discard_cards(discarded.as_slice());
        self.selected_indices.clear();
        self.hand = rest;
        let size = self.hand_size as usize;
        let need: usize = if size > self.hand.len() { size - self.hand.len() } else { 0 };
        let drawn = self.deck.draw(need);
        append_cards(&mut self.hand, drawn);
        self.apply_boss_debuffs();
        discarded
    }

    /// Draw cards to fill the hand back up to the hand size, applying the boss's suit debuff
    /// to the hand when any card was drawn.
    pub fn draw_to_hand_size(&mut self)
        ensures
            hand_refilled(*old(self), *final(self)),
    {
        let size = self.hand_size as usize;
        let need: usize = if size > self.hand.len() { size - self.hand.len() } else { 0 };
        if need > 0 {
            let drawn = self.deck.draw(need);
            append_cards(&mut self.hand, drawn);
            self.apply_boss_debuffs();
        }
    }

    /// Toggle selection of the card at `idx`: unselect it if selected, else select it when
    /// fewer than five are selected. Nothing happens for a position past the hand.
    pub fn toggle_select(&mut self, idx: usize)
        requires
            old(self).wf(),
        ensures
            final(self).wf(),
            selection_toggled(*old(self), *final(self), idx),
    {
        if idx >= self.hand.len() {
            return;
        }
        let mut pos: usize = 0;
        while pos < self.selected_indices.len()
            invariant
                pos <= self.selected_indices@.len(),
                forall|j: int| 0 <= j < pos ==> self.selected_indices@[j] != idx,
                *self == *old(self),
                old(self).wf(),
                idx < old(self).hand@.len(),
            decreases self.selected_indices@.len() - pos,
        {
            if self.selected_indices[pos] == idx {
                let ghost sel = self.selected_indices@;
                self.selected_indices.remove(pos);
                proof {
                    assert forall|a: int, b: int|
                        0 <= a < b < self.selected_indices@.len() implies self.selected_indices@[a]
                        != self.selected_indices@[b] by {
                        let a2 = if a < pos { a } else { a + 1 };
                        let b2 = if b < pos { b } else { b + 1 };
                        assert(self.selected_indices@[a] == sel[a2]);
                        assert(self.selected_indices@[b] == sel[b2]);
                        assert(sel[a2] != sel[b2]);
                    }
                }
                return;
            }
            pos += 1;
        }
        assert(!self.selected_indices@.contains(idx));
        if self.selected_indices.len() < MAX_SELECTED {
            let ghost sel = self.selected_indices@;
            self.selected_indices.push(idx);
            proof {
                assert forall|a: int, b: int|
                    0 <= a < b < self.selected_indices@.len() implies self.selected_indices@[a]
                    != self.selected_indices@[b] by {
                    if b == sel.len() {
                        assert(sel[a] != idx);
                    } else {
                        assert(sel[a] != sel[b]);
                    }
                }
            }
        }
    }

    /// Get the currently selected cards (in selection order)
    pub fn selected_cards(&self) -> (r: Vec<PlayingCard>)
        ensures
            r@ == selected_of(self.hand@, self.selected_indices@),
    {
        let mut out: Vec<PlayingCard> = Vec::new();
        let mut k: usize = 0;
        while k < self.selected_indices.len()
            invariant
                k <= self.selected_indices@.len(),
                out@ == selected_of(self.hand@, self.selected_indices@.take(k as int)),
            decreases self.selected_indices@.len() - k,
        {
            proof {
                assert(self.selected_indices@.take(k as int + 1).drop_last()
                    =~= self.selected_indices@.take(k as int));
            }
            let i = self.selected_indices[k];
            if i < self.hand.len() {
                out.push(self.hand[i]);
            }
            k += 1;
        }
        proof {
            assert(self.selected_indices@.take(self.selected_indices@.len() as int)
                =~= self.selected_indices@);
        }
        out
    }

    /// The Hook: after a play, two random cards of the hand go to the discard pile (the one
    /// at the higher position first). Nothing happens against other blinds or with two
    /// cards or fewer in hand.
    pub fn apply_hook_effect(&mut self)
        ensures
            hook_applied(*old(self), *final(self)),
    {
        match self.blind_type {
            BlindType::Boss(BossBlind::TheHook) => {},
            _ => {
                return;
            },
        }
        let n = self.hand.len();
        if n <= 2 {
            return;
        }
        let first = below(&mut self.rng, n);
        let other = below(&mut self.rng, n - 1);
        let second = if other >= first { other + 1 } else { other };
        let hi = if first > second { first } else { second };
        let lo = if first > second { second } else { first };
        let ghost h = self.hand@;
        let card_hi = self.hand.remove(hi);
        self.deck.discard_cards(&[card_hi]);
        let card_lo = self.hand.remove(lo);
        self.deck.discard_cards(&[card_lo]);
        proof {
            assert(h.remove(hi as int)[lo as int] == h[lo as int]);
            assert(self.deck.discard_pile() =~= old(self).deck.discard_pile().push(h[hi as int]).push(
                h[lo as int],
            ));
        }
    }
}

fn set_enhancement(hand: &mut Vec<PlayingCard>, sel: &Vec<usize>, e: Enhancement)
    ensures
        final(hand)@ == enhanced(old(hand)@, sel@, e),
{
    let ghost start = hand@;
    let mut k: usize = 0;
    while k < sel.len()
        invariant
            k <= sel@.len(),
            hand@ == enhanced(start, sel@.take(k as int), e),
        decreases sel@.len() - k,
    {
        let idx = sel[k];
        if idx < hand.len() {
            let mut c = hand[idx];
            c.enhancement = Some(e);
            hand.set(idx, c);
        }
        proof {
            assert forall|i: int| 0 <= i < start.len() implies #[trigger] sel@.take(k as int + 1).contains(
                i as usize,
            ) == (sel@.take(k as int).contains(i as usize) || sel@[k as int] == i as usize) by {
                if sel@.take(k as int + 1).contains(i as usize) {
                    let p = choose|p: int| 0 <= p < k + 1 && #[trigger] sel@.take(k as int + 1)[p] == i as usize;
                    if p < k {
                        assert(sel@.take(k as int)[p] == i as usize);
                    }
                }
                if sel@.take(k as int).contains(i as usize) {
                    let p = choose|p: int| 0 <= p < k && #[trigger] sel@.take(k as int)[p] == i as usize;
                    assert(sel@.take(k as int + 1)[p] == i as usize);
                }
                if sel@[k as int] == i as usize {
                    assert(sel@.take(k as int + 1)[k as int] == i as usize);
                }
            }
            assert(hand@ =~= enhanced(start, sel@.take(k as int + 1), e));
        }
        k += 1;
    }
    proof {
        assert(sel@.take(sel@.len() as int) =~= sel@);
    }
}

impl RunState {
    /// Buy a shop item: when allowed (see `can_buy`) pay its price, take it out of the shop
    /// and add it to the jokers or the consumables; otherwise nothing happens.
    pub fn buy_shop_item(&mut self, index: usize) -> (r: bool)
        requires
            old(self).wf(),
        ensures
            final(self).wf(),
            item_bought(*old(self), *final(self), index, r),
    {
        let item = match &self.shop {
            Some(shop) => {
                if index < shop.items.len() {
                    shop.items[index]
                } else {
                    return false;
                }
            },
            None => {
                return false;
            },
        };
        let price = item.price();
        if self.money < price {
            return false;
        }
        match item {
            ShopItem::JokerItem(_) => {
                if self.jokers.len() >= self.max_jokers as usize {
                    return false;
                }
            },
            ShopItem::ConsumableItem(_) => {
                if self.consumables.len() >= self.max_consumables as usize {
                    return false;
                }
            },
        }
        let mut shop = self.shop.take().unwrap();
        shop.buy(index);
        self.shop = Some(shop);
        self.money = self.money - price;
        match item {
            ShopItem::JokerItem(joker) => {
                self.jokers.push(joker);
            },
            ShopItem::ConsumableItem(consumable) => {
                self.consumables.push(consumable);
            },
        }
        true
    }

    /// Sell the joker at `index` for its total sell value; false (nothing happens) when
    /// there is none.
    pub fn sell_joker(&mut self, index: usize) -> (r: bool)
        requires
            old(self).wf(),
        ensures
            final(self).wf(),
            joker_sold(*old(self), *final(self), index, r),
    {
        if index >= self.jokers.len() {
            return false;
        }
        let joker = self.jokers.remove(index);
        self.money = self.money.saturating_add(joker.total_sell_value());
        true
    }

    /// Reroll the shop: when it is open and affordable pay the reroll cost and restock it;
    /// the cost goes up by one and stays up.
    pub fn reroll_shop(&mut self) -> (r: bool)
        requires
            old(self).wf(),
        ensures
            final(self).wf(),
            shop_rerolled(*old(self), *final(self), r),
    {
        let cost = match &self.shop {
            Some(shop) => shop.reroll_cost,
            None => {
                return false;
            },
        };
        if self.money < cost {
            return false;
        }
        self.money = self.money - cost;
        let mut shop = Shop::generate(&mut self.rng, self.ante);
        shop.reroll_cost = cost.saturating_add(1);
        self.shop = Some(shop);
        true
    }

    /// Use the planet card at `consumable_index`: level up its hand and use up the card.
    /// False (nothing happens) when there is no planet card there.
    pub fn use_planet(&mut self, consumable_index: usize) -> (r: bool)
        requires
            old(self).wf(),
        ensures
            final(self).wf(),
            planet_used(*old(self), *final(self), consumable_index, r),
    {
        if consumable_index >= self.consumables.len() {
            return false;
        }
        match self.consumables[consumable_index].consumable_type {
            ConsumableType::Planet(planet) => {
                self.hand_levels.level_up(planet.hand_type());
                self.consumables.remove(consumable_index);
                true
            },
            _ => false,
        }
    }

    /// Use the tarot card at `consumable_index` on the selection (see `tarot_effect`) and
    /// use up the card. False (nothing happens) when there is no tarot card there or the
    /// selection does not fit it.
    pub fn use_tarot(&mut self, consumable_index: usize) -> (r: bool)
        requires
            old(self).wf(),
        ensures
            final(self).wf(),
            tarot_used(*old(self), *final(self), consumable_index, r),
    {
        if consumable_index >= self.consumables.len() {
            return false;
        }
        let tarot = match self.consumables[consumable_index].consumable_type {
            ConsumableType::Tarot(t) => t,
            _ => {
                return false;
            },
        };
        let (min, max) = tarot.cards_needed();
        let selected_count = self.selected_indices.len();
        if min > 0 && (selected_count < min || selected_count > max) {
            return false;
        }
        let ghost hand0 = self.hand@;
        match tarot {
            TarotCard::TheHierophant => set_enhancement(&mut self.hand, &self.selected_indices, Enhancement::Bonus),
            TarotCard::TheEmpress => set_enhancement(&mut self.hand, &self.selected_indices, Enhancement::Mult),
            TarotCard::TheMagician => set_enhancement(&mut self.hand, &self.selected_indices, Enhancement::Lucky),
            TarotCard::TheLover | TarotCard::TheChariot => {
                let e = match tarot {
                    TarotCard::TheLover => Enhancement::Wild,
                    _ => Enhancement::Steel,
                };
                let mut first: Vec<usize> = Vec::new();
                if self.selected_indices.len() > 0 {
                    first.push(self.selected_indices[0]);
                }
                assert(first@ =~= first_only(self.selected_indices@));
                set_enhancement(&mut self.hand, &first, e);
            },
            TarotCard::Strength => rank_up_selected(&mut self.hand, &self.selected_indices),
            TarotCard::TheHermit => {
                let gain = if self.money < 20 { self.money } else { 20 };
                self.money = self.money.saturating_add(gain);
            },
            TarotCard::Temperance => {
                let total = total_sell(&self.jokers);
                let gain: u32 = if total < 50 { total as u32 } else { 50 };
                self.money = self.money.saturating_add(gain);
            },
            _ => {},
        }
        self.consumables.remove(consumable_index);
        true
    }

    /// Every card the player owns: draw pile, discard pile, then the hand.
    pub fn full_deck(&self) -> (r: Vec<PlayingCard>)
        ensures
            r@ == self.deck.draw_pile() + self.deck.discard_pile() + self.hand@,
    {
        let mut all = self.deck.all_cards();
        let mut k: usize = 0;
        while k < self.hand.len()
            invariant
                k <= self.hand@.len(),
                all@ == self.deck.draw_pile() + self.deck.discard_pile() + self.hand@.take(k as int),
            decreases self.hand@.len() - k,
        {
            all.push(self.hand[k]);
            proof {
                assert(all@ =~= self.deck.draw_pile() + self.deck.discard_pile() + self.hand@.take(
                    k as int + 1,
                ));
            }
            k += 1;
        }
        proof {
            assert(self.hand@.take(self.hand@.len() as int) =~= self.hand@);
        }
        all
    }
}

fn rank_up_selected(hand: &mut Vec<PlayingCard>, sel: &Vec<usize>)
    requires
        sel@.no_duplicates(),
    ensures
        final(hand)@ == ranked_up(old(hand)@, sel@),
{
    let ghost start = hand@;
    let mut k: usize = 0;
    while k < sel.len()
        invariant
            k <= sel@.len(),
            sel@.no_duplicates(),
            hand@ == ranked_up(start, sel@.take(k as int)),
        decreases sel@.len() - k,
    {
        let idx = sel[k];
        proof {
            assert(!sel@.take(k as int).contains(idx)) by {
                if sel@.take(k as int).contains(idx) {
                    let p = choose|p: int| 0 <= p < k && #[trigger] sel@.take(k as int)[p] == idx;
                    assert(sel@[p] == sel@[k as int]);
                }
            }
        }
        if idx < hand.len() {
            let mut c = hand[idx];
            c.rank = c.rank.next();
            hand.set(idx, c);
        }
        proof {
            assert forall|i: int| 0 <= i < start.len() implies #[trigger] sel@.take(k as int + 1).contains(
                i as usize,
            ) == (sel@.take(k as int).contains(i as usize) || sel@[k as int] == i as usize) by {
                if sel@.take(k as int + 1).contains(i as usize) {
                    let p = choose|p: int| 0 <= p < k + 1 && #[trigger] sel@.take(k as int + 1)[p] == i as usize;
                    if p < k {
                        assert(sel@.take(k as int)[p] == i as usize);
                    }
                }
                if sel@.take(k as int).contains(i as usize) {
                    let p = choose|p: int| 0 <= p < k && #[trigger] sel@.take(k as int)[p] == i as usize;
                    assert(sel@.take(k as int + 1)[p] == i as usize);
                }
                if sel@[k as int] == i as usize {
                    assert(sel@.take(k as int + 1)[k as int] == i as usize);
                }
            }
            assert(hand@ =~= ranked_up(start, sel@.take(k as int + 1)));
        }
        k += 1;
    }
    proof {
        assert(sel@.take(sel@.len() as int) =~= sel@);
    }
}

fn total_sell(jokers: &Vec<Joker>) -> (r: u64)
    requires
        jokers@.len() <= 255,
    ensures
        r == sell_sum(jokers@),
{
    let mut total: u64 = 0;
    let mut k: usize = 0;
    while k < jokers.len()
        invariant
            k <= jokers@.len(),
            jokers@.len() <= 255,
            total == sell_sum(jokers@.take(k as int)),
            total <= k * 0xffff_ffff,
        decreases jokers@.len() - k,
    {
        proof {
            assert(jokers@.take(k as int + 1).drop_last() =~= jokers@.take(k as int));
        }
        total = total + jokers[k].total_sell_value() as u64;
        k += 1;
    }
    proof {
        assert(jokers@.take(jokers@.len() as int) =~= jokers@);
    }
    total
}

/// Sort key of a card: by rank then suit, or by suit then rank.
pub open spec fn sort_key(c: PlayingCard, by_suit: bool) -> int {
    if by_suit {
        c.suit.spec_order() * 16 + c.rank.spec_value()
    } else {
        c.rank.spec_value() * 4 + c.suit.spec_order()
    }
}

/// The cards are in ascending order of their sort key.
pub open spec fn sorted_by_key(s: Seq<PlayingCard>, by_suit: bool) -> bool {
    forall|i: int, j: int| 0 <= i < j < s.len() ==> sort_key(s[i], by_suit) <= sort_key(s[j], by_suit)
}

fn key_of(c: &PlayingCard, by_suit: bool) -> (r: u8)
    ensures
        r == sort_key(*c, by_suit),
{
    if by_suit {
        c.suit.order() * 16 + c.rank.value()
    } else {
        c.rank.value() * 4 + c.suit.order()
    }
}

/// A stable insertion sort of the cards by their sort key.
fn sorted_cards(v: &Vec<PlayingCard>, by_suit: bool) -> (r: Vec<PlayingCard>)
    ensures
        sorted_by_key(r@, by_suit),
        r@.to_multiset() == v@.to_multiset(),
        r@.len() == v@.len(),
{
    broadcast use vstd::seq_lib::group_to_multiset_ensures;

    let mut out: Vec<PlayingCard> = Vec::new();
    let mut i: usize = 0;
    while i < v.len()
        invariant
            i <= v@.len(),
            sorted_by_key(out@, by_suit),
            out@.to_multiset() == v@.take(i as int).to_multiset(),
            out@.len() == i,
        decreases v@.len() - i,
    {
        let x = v[i];
        let kx = key_of(&x, by_suit);
        let mut pos: usize = 0;
        while pos < out.len() && key_of(&out[pos], by_suit) <= kx
            invariant
                pos <= out@.len(),
                forall|j: int| 0 <= j < pos ==> sort_key(#[trigger] out@[j], by_suit) <= kx,
            decreases out@.len() - pos,
        {
            pos += 1;
        }
        let ghost before = out@;
        out.insert(pos, x);
        proof {
            assert(v@.take(i as int + 1) =~= v@.take(i as int).push(x));
            vstd::seq_lib::to_multiset_insert(before, pos as int, x);
            vstd::seq_lib::to_multiset_build(v@.take(i as int), x);
            assert(out@ == before.insert(pos as int, x));
            assert(out@.to_multiset() == v@.take(i as int + 1).to_multiset());
            assert forall|a: int, b: int|
                0 <= a < b < out@.len() implies sort_key(out@[a], by_suit) <= sort_key(
                out@[b],
                by_suit,
            ) by {
                if b < pos {
                    assert(out@[a] == before[a] && out@[b] == before[b]);
                } else if b == pos {
                    assert(out@[a] == before[a]);
                } else if a < pos {
                    assert(out@[a] == before[a] && out@[b] == before[b - 1]);
                    if pos < before.len() {
                        assert(sort_key(before[pos as int], by_suit) > kx);
                        assert(sort_key(before[a], by_suit) <= sort_key(before[pos as int], by_suit));
                        assert(sort_key(before[pos as int], by_suit) <= sort_key(before[b - 1], by_suit) || b - 1 == pos);
                    }
                } else if a == pos {
                    assert(out@[b] == before[b - 1]);
                    assert(sort_key(before[pos as int], by_suit) > kx);
                    assert(sort_key(before[pos as int], by_suit) <= sort_key(before[b - 1], by_suit) || b - 1 == pos);
                } else {
                    assert(out@[a] == before[a - 1] && out@[b] == before[b - 1]);
                }
            }
        }
        i += 1;
    }
    proof {
        assert(v@.take(v@.len() as int) =~= v@);
    }
    out
}

impl RunState {
    /// Sort the hand by rank (Two to Ace), then by suit within a rank (Spades, Hearts,
    /// Diamonds, Clubs); the selection is cleared.
    pub fn sort_hand_by_rank(&mut self)
        requires
            old(self).wf(),
        ensures
            final(self).wf(),
            sorted_by_key(final(self).hand@, false),
            final(self).hand@.to_multiset() == old(self).hand@.to_multiset(),
            final(self).hand@.len() == old(self).hand@.len(),
            final(self).selected_indices@ == Seq::<usize>::empty(),
            *final(self) == (RunState {
                hand: final(self).hand,
                selected_indices: final(self).selected_indices,
                ..*old(self)
            }),
    {
        self.selected_indices.clear();
        self.hand = sorted_cards(&self.hand, false);
    }

    /// Sort the hand by suit (Spades, Hearts, Diamonds, Clubs), then by rank within a suit;
    /// the selection is cleared.
    pub fn sort_hand_by_suit(&mut self)
        requires
            old(self).wf(),
        ensures
            final(self).wf(),
            sorted_by_key(final(self).hand@, true),
            final(self).hand@.to_multiset() == old(self).hand@.to_multiset(),
            final(self).hand@.len() == old(self).hand@.len(),
            final(self).selected_indices@ == Seq::<usize>::empty(),
            *final(self) == (RunState {
                hand: final(self).hand,
                selected_indices: final(self).selected_indices,
                ..*old(self)
            }),
    {
        self.selected_indices.clear();
        self.hand = sorted_cards(&self.hand, true);
    }
}

/// The run after adding `score` to the round score.
pub open spec fn score_added(before: RunState, after: RunState, score: u64) -> bool {
    &&& after == (RunState {
        round_score: sat_add_u64(before.round_score as int, score as int),
        ..before
    })
}

/// The run after using up a hand.
pub open spec fn hand_used(before: RunState, after: RunState) -> bool {
    &&& after == (RunState {
        hands_remaining: if before.hands_remaining > 0 {
            (before.hands_remaining - 1) as u8
        } else {
            0
        },
        ..before
    })
}

/// The run after using up a discard; `r` tells whether one was left.
pub open spec fn discard_used(before: RunState, after: RunState, r: bool) -> bool {
    &&& r == (before.discards_remaining > 0)
    &&& after == (RunState {
        discards_remaining: if r {
            (before.discards_remaining - 1) as u8
        } else {
            0
        },
        ..before
    })
}

/// The run after starting the current blind.
pub open spec fn blind_started(before: RunState, after: RunState) -> bool {
    &&& after.ante_phase == AntePhase::Playing
    &&& after.round_score == 0
    &&& after.hands_remaining == if before.blind_type == BlindType::Boss(
        BossBlind::TheNeedle,
    ) {
        1
    } else {
        HANDS_PER_BLIND
    }
    &&& after.discards_remaining == DISCARDS_PER_BLIND
    &&& after.selected_indices@ == Seq::<usize>::empty()
    &&& after.score_target == spec_score_target(before.ante, before.blind_type)
    &&& after.deck.discard_pile() == Seq::<PlayingCard>::empty()
    &&& exists|pile: Seq<PlayingCard>|
        {
            let k = draw_count(pile.len() as int, before.hand_size as int);
            &&& #[trigger] pile.to_multiset() == (before.deck.draw_pile() + before.deck.discard_pile()).to_multiset()
            &&& pile.len() == before.deck.draw_pile().len() + before.deck.discard_pile().len()
            &&& after.deck.draw_pile() == pile.take(pile.len() - k)
            &&& after.hand@ == with_debuffs(top_of(pile, k), before.blind_type)
        }
    &&& after == (RunState {
        ante_phase: after.ante_phase,
        round_score: after.round_score,
        hands_remaining: after.hands_remaining,
        discards_remaining: after.discards_remaining,
        selected_indices: after.selected_indices,
        score_target: after.score_target,
        deck: after.deck,
        hand: after.hand,
        rng: after.rng,
        ..before
    })
}

/// The run after skipping the current blind.
pub open spec fn blind_skipped(before: RunState, after: RunState) -> bool {
    &&& advanced(
        before,
        before.blind_outcomes@.update(
            blind_index(before.blind_type),
            BlindOutcome::Skipped,
        ),
        after,
    )
    &&& after.shop == before.shop
}

/// The run after leaving the shop.
pub open spec fn shop_left(before: RunState, after: RunState) -> bool {
    &&& advanced(before, before.blind_outcomes@, after)
    &&& after.shop is None
}

/// The run after beating the current blind and collecting the reward.
pub open spec fn blind_cashed_out(before: RunState, after: RunState) -> bool {
    &&& after.money == sat_add_u32(before.money as int, reward_of(before).total as int)
    &&& after.blinds_beaten == sat_add_u8(before.blinds_beaten as int, 1)
    &&& after.blind_outcomes@ == before.blind_outcomes@.update(
        blind_index(before.blind_type),
        BlindOutcome::Beaten,
    )
    &&& after.jokers@ == eggs_aged(before.jokers@)
    &&& after.ante_phase == AntePhase::Shop
    &&& after.hand@ == Seq::<PlayingCard>::empty()
    &&& after.selected_indices@ == Seq::<usize>::empty()
    &&& after.deck.draw_pile() == before.deck.draw_pile()
    &&& after.deck.discard_pile() == before.deck.discard_pile() + cleared(
        before.hand@,
    )
    &&& after.shop matches Some(shop) && shop.items@.len() == SHOP_SLOTS
        && shop.reroll_cost == BASE_REROLL_COST && forall|i: int|
        0 <= i < shop.items@.len() ==> is_offerable(#[trigger] shop.items@[i])
    &&& after == (RunState {
        money: after.money,
        blinds_beaten: after.blinds_beaten,
        blind_outcomes: after.blind_outcomes,
        jokers: after.jokers,
        ante_phase: after.ante_phase,
        hand: after.hand,
        selected_indices: after.selected_indices,
        deck: after.deck,
        shop: after.shop,
        rng: after.rng,
        ..before
    })
}

/// The run after playing the selection, `played` being the cards played.
pub open spec fn cards_played(before: RunState, after: RunState, played: Seq<PlayingCard>) -> bool {
    &&& played == picked(before.hand@, before.selected_indices@, before.hand@.len() as int)
    &&& after.hand@ == kept(before.hand@, before.selected_indices@, before.hand@.len() as int)
    &&& after.selected_indices@ == Seq::<usize>::empty()
    &&& after == (RunState {
        hand: after.hand,
        selected_indices: after.selected_indices,
        ..before
    })
}

/// The run after discarding the selection, `discarded` being the cards discarded.
pub open spec fn cards_discarded(before: RunState, after: RunState, discarded: Seq<PlayingCard>) -> bool {
    &&& ({
        let hand = before.hand@;
        let sel = before.selected_indices@;
        let rest = kept(hand, sel, hand.len() as int);
        let pile = before.deck.draw_pile();
        let k = draw_count(pile.len() as int, sat_sub(before.hand_size as int, rest.len() as int));
        &&& discarded == picked(hand, sel, hand.len() as int).reverse()
        &&& after.deck.discard_pile() == before.deck.discard_pile() + discarded
        &&& after.deck.draw_pile() == pile.take(pile.len() - k)
        &&& after.hand@ == with_debuffs(rest + top_of(pile, k), before.blind_type)
    })
    &&& after.selected_indices@ == Seq::<usize>::empty()
    &&& after == (RunState {
        hand: after.hand,
        selected_indices: after.selected_indices,
        deck: after.deck,
        ..before
    })
}

/// The run after refilling the hand.
pub open spec fn hand_refilled(before: RunState, after: RunState) -> bool {
    &&& ({
        let pile = before.deck.draw_pile();
        let need = sat_sub(before.hand_size as int, before.hand@.len() as int);
        let k = draw_count(pile.len() as int, need);
        if need > 0 {
            &&& after.deck.draw_pile() == pile.take(pile.len() - k)
            &&& after.hand@ == with_debuffs(
                before.hand@ + top_of(pile, k),
                before.blind_type,
            )
            &&& after == (RunState {
                hand: after.hand,
                deck: after.deck,
                ..before
            })
        } else {
            after == before
        }
    })
}

/// The run after toggling the selection of position `idx`.
pub open spec fn selection_toggled(before: RunState, after: RunState, idx: usize) -> bool {
    &&& ({
        let sel = before.selected_indices@;
        if idx >= before.hand@.len() {
            after.selected_indices@ == sel
        } else if sel.contains(idx) {
            exists|p: int|
                0 <= p < sel.len() && sel[p] == idx && after.selected_indices@
                    == sel.remove(p)
        } else if sel.len() < MAX_SELECTED {
            after.selected_indices@ == sel.push(idx)
        } else {
            after.selected_indices@ == sel
        }
    })
    &&& after == (RunState { selected_indices: after.selected_indices, ..before })
}

/// The run after The Hook has acted (or not, against another blind).
pub open spec fn hook_applied(before: RunState, after: RunState) -> bool {
    &&& if before.blind_type == BlindType::Boss(BossBlind::TheHook) && before.hand@.len() > 2 {
        exists|lo: int, hi: int|
            0 <= lo < hi < before.hand@.len()
                && after.hand@ == before.hand@.remove(hi).remove(lo)
                && after.deck.discard_pile() == before.deck.discard_pile().push(
                before.hand@[hi],
            ).push(before.hand@[lo])
                && after.deck.draw_pile() == before.deck.draw_pile()
                && after == (RunState {
                hand: after.hand,
                deck: after.deck,
                rng: after.rng,
                ..before
            })
    } else {
        after == before
    }
}

/// The run after trying to buy shop item `index`; `r` tells whether it was bought.
pub open spec fn item_bought(before: RunState, after: RunState, index: usize, r: bool) -> bool {
    &&& r == can_buy(before, index as int)
    &&& r ==> {
        let shop = before.shop->Some_0;
        let item = shop.items@[index as int];
        &&& after.money == before.money - item.spec_price()
        &&& after.shop matches Some(s) && s.items@ == shop.items@.remove(index as int)
            && s.reroll_cost == shop.reroll_cost
        &&& match item {
            ShopItem::JokerItem(j) => after.jokers@ == before.jokers@.push(j)
                && after.consumables == before.consumables,
            ShopItem::ConsumableItem(c) => after.consumables@ == before.consumables@.push(c)
                && after.jokers == before.jokers,
        }
        &&& after == (RunState {
            money: after.money,
            shop: after.shop,
            jokers: after.jokers,
            consumables: after.consumables,
            ..before
        })
    }
    &&& !r ==> after == before
}

/// The run after trying to sell joker `index`; `r` tells whether it was sold.
pub open spec fn joker_sold(before: RunState, after: RunState, index: usize, r: bool) -> bool {
    &&& r == (index < before.jokers@.len())
    &&& r ==> after.jokers@ == before.jokers@.remove(index as int) && after.money
        == sat_add_u32(
        before.money as int,
        before.jokers@[index as int].spec_total_sell_value() as int,
    ) && after == (RunState {
        jokers: after.jokers,
        money: after.money,
        ..before
    })
    &&& !r ==> after == before
}

/// The run after trying to reroll the shop; `r` tells whether it was rerolled.
pub open spec fn shop_rerolled(before: RunState, after: RunState, r: bool) -> bool {
    &&& r == (before.shop matches Some(s) && before.money >= s.reroll_cost)
    &&& r ==> {
        let cost = before.shop->Some_0.reroll_cost;
        &&& after.money == before.money - cost
        &&& after.shop matches Some(s) && s.reroll_cost == sat_add_u32(cost as int, 1)
            && s.items@.len() == SHOP_SLOTS && forall|i: int|
            0 <= i < s.items@.len() ==> is_offerable(#[trigger] s.items@[i])
        &&& after == (RunState {
            money: after.money,
            shop: after.shop,
            rng: after.rng,
            ..before
        })
    }
    &&& !r ==> after == before
}

/// The run after trying to use planet card `consumable_index`; `r` tells whether it was used.
pub open spec fn planet_used(before: RunState, after: RunState, consumable_index: usize, r: bool) -> bool {
    &&& r == planet_usable(before, consumable_index)
    &&& r ==> {
        let p = before.consumables@[consumable_index as int].consumable_type->Planet_0;
        &&& after.hand_levels@ == leveled_up(before.hand_levels@, p.spec_hand_type())
        &&& after.consumables@ == before.consumables@.remove(consumable_index as int)
        &&& after == (RunState {
            hand_levels: after.hand_levels,
            consumables: after.consumables,
            ..before
        })
    }
    &&& !r ==> after == before
}

/// The run after trying to use tarot card `consumable_index`; `r` tells whether it was used.
pub open spec fn tarot_used(before: RunState, after: RunState, consumable_index: usize, r: bool) -> bool {
    &&& r == tarot_usable(before, consumable_index)
    &&& r ==> {
        let t = before.consumables@[consumable_index as int].consumable_type->Tarot_0;
        &&& tarot_effect(before, t, after)
        &&& after.consumables@ == before.consumables@.remove(consumable_index as int)
        &&& after == (RunState {
            hand: after.hand,
            money: after.money,
            consumables: after.consumables,
            ..before
        })
    }
    &&& !r ==> after == before
}

/// Whether the consumable at `ci` is a planet card.
pub open spec fn planet_usable(s: RunState, ci: usize) -> bool {
    ci < s.consumables@.len() && s.consumables@[ci as int].consumable_type is Planet
}

/// Whether the consumable at `ci` is a tarot card whose needs the selection meets.
pub open spec fn tarot_usable(s: RunState, ci: usize) -> bool {
    ci < s.consumables@.len() && s.consumables@[ci as int].consumable_type is Tarot
        && tarot_selection_ok(
        s.consumables@[ci as int].consumable_type->Tarot_0,
        s.selected_indices@.len() as int,
    )
}

/// Whether the shop is open and its reroll affordable.
pub open spec fn reroll_affordable(s: RunState) -> bool {
    s.shop matches Some(shop) && s.money >= shop.reroll_cost
}

/// A run as it starts: ante 1, Small blind to select, $4, a full 52-card deck, no hand,
/// no jokers and no shop.
pub open spec fn is_new_run(r: RunState) -> bool {
    &&& r.wf()
    &&& r.ante == 1
    &&& r.blind_type == BlindType::Small
    &&& r.ante_phase == AntePhase::BlindSelect
    &&& r.money == 4
    &&& r.deck.draw_pile().len() == 52
    &&& r.hand@ == Seq::<PlayingCard>::empty()
    &&& r.jokers@ == Seq::<Joker>::empty()
    &&& r.shop is None
}

/// Against The Psychic a selection can be played exactly when it holds five cards, as long
/// as a hand is left.
pub proof fn lemma_psychic_needs_five(s: RunState)
    requires
        s.blind_type == BlindType::Boss(BossBlind::ThePsychic),
        s.hands_remaining > 0,
    ensures
        may_play(s) <==> s.selected_indices@.len() == MAX_SELECTED,
{
}

} // verus!
