use vstd::prelude::*;

use crate::card::{Enhancement, PlayingCard, Ratio, Suit};
use crate::hand::PokerHand;

verus! {

/// Rarity tier for jokers
#[derive(Debug, Clone, Copy, PartialEq, Eq, Hash, Structural)]
pub enum JokerRarity {
    Common,
    Uncommon,
    Rare,
    Legendary,
}

impl JokerRarity {
    pub open spec fn spec_base_price(self) -> u32 {
        match self {
            JokerRarity::Common => 4,
            JokerRarity::Uncommon => 6,
            JokerRarity::Rare => 8,
            JokerRarity::Legendary => 20,
        }
    }

    pub fn base_price(&self) -> (r: u32)
        ensures
            r == self.spec_base_price(),
    {
        match self {
            JokerRarity::Common => 4,
            JokerRarity::Uncommon => 6,
            JokerRarity::Rare => 8,
            JokerRarity::Legendary => 20,
        }
    }
}

#[derive(Debug, Clone, Copy, PartialEq, Eq, Hash, Structural)]
pub enum JokerType {
    /// +4 Mult
    Joker,
    /// +3 Mult per Diamond scored
    GreedyJoker,
    /// +3 Mult per Heart scored
    LustyJoker,
    /// +3 Mult per Spade scored
    WrathfulJoker,
    /// +3 Mult per Club scored
    GluttonousJoker,
    /// +8 Mult if the hand is at least a Pair
    JollyJoker,
    /// +12 Mult if the hand is at least Three of a Kind
    ZanyJoker,
    /// +12 Mult if the hand is at least a Straight
    CrazyJoker,
    /// +20 Mult if at most three cards were played
    HalfJoker,
    /// +30 Chips per discard remaining
    Banner,
    /// +31 Chips per odd-ranked scoring card
    OddTodd,
    /// +20 Chips and +4 Mult per scoring Ace
    Scholar,
    /// ×(1 + 0.2 per Steel card held)
    SteelJoker,
    /// ×3 Mult if every held card is a Spade or a Club
    Blackboard,
    /// ×2 Mult if the hand is at least a Pair
    TheDuo,
    /// Gains sell value each round
    Egg,
    /// Pays out at the end of each round
    GoldenJoker,
    /// Retriggers scoring 2s, 3s, 4s and 5s
    Hack,
    /// Copies the joker to its right
    Blueprint,
    /// ×3 Mult if the hand is at least Three of a Kind
    TheTrio,
}

impl JokerType {
    pub open spec fn spec_all() -> Seq<JokerType> {
        seq![
            JokerType::Joker,
            JokerType::GreedyJoker,
            JokerType::LustyJoker,
            JokerType::WrathfulJoker,
            JokerType::GluttonousJoker,
            JokerType::JollyJoker,
            JokerType::ZanyJoker,
            JokerType::CrazyJoker,
            JokerType::HalfJoker,
            JokerType::Banner,
            JokerType::OddTodd,
            JokerType::Scholar,
            JokerType::SteelJoker,
            JokerType::Blackboard,
            JokerType::TheDuo,
            JokerType::Egg,
            JokerType::GoldenJoker,
            JokerType::Hack,
            JokerType::Blueprint,
            JokerType::TheTrio,
        ]
    }

    /// All joker types, in catalogue order.
    pub fn all() -> (r: Vec<JokerType>)
        ensures
            r@ == JokerType::spec_all(),
    {
        vec![
            JokerType::Joker,
            JokerType::GreedyJoker,
            JokerType::LustyJoker,
            JokerType::WrathfulJoker,
            JokerType::GluttonousJoker,
            JokerType::JollyJoker,
            JokerType::ZanyJoker,
            JokerType::CrazyJoker,
            JokerType::HalfJoker,
            JokerType::Banner,
            JokerType::OddTodd,
            JokerType::Scholar,
            JokerType::SteelJoker,
            JokerType::Blackboard,
            JokerType::TheDuo,
            JokerType::Egg,
            JokerType::GoldenJoker,
            JokerType::Hack,
            JokerType::Blueprint,
            JokerType::TheTrio,
        ]
    }

    pub open spec fn spec_name(self) -> Seq<char> {
        match self {
            JokerType::Joker => "Joker"@,
            JokerType::GreedyJoker => "Greedy Joker"@,
            JokerType::LustyJoker => "Lusty Joker"@,
            JokerType::WrathfulJoker => "Wrathful Joker"@,
            JokerType::GluttonousJoker => "Gluttonous Joker"@,
            JokerType::JollyJoker => "Jolly Joker"@,
            JokerType::ZanyJoker => "Zany Joker"@,
            JokerType::CrazyJoker => "Crazy Joker"@,
            JokerType::HalfJoker => "Half Joker"@,
            JokerType::Banner => "Banner"@,
            JokerType::OddTodd => "Odd Todd"@,
            JokerType::Scholar => "Scholar"@,
            JokerType::SteelJoker => "Steel Joker"@,
            JokerType::Blackboard => "Blackboard"@,
            JokerType::TheDuo => "The Duo"@,
            JokerType::Egg => "Egg"@,
            JokerType::GoldenJoker => "Golden Joker"@,
            JokerType::Hack => "Hack"@,
            JokerType::Blueprint => "Blueprint"@,
            JokerType::TheTrio => "The Trio"@,
        }
    }

    pub fn name(&self) -> (r: &'static str)
        ensures
            r@ == self.spec_name(),
    {
        match self {
            JokerType::Joker => "Joker",
            JokerType::GreedyJoker => "Greedy Joker",
            JokerType::LustyJoker => "Lusty Joker",
            JokerType::WrathfulJoker => "Wrathful Joker",
            JokerType::GluttonousJoker => "Gluttonous Joker",
            JokerType::JollyJoker => "Jolly Joker",
            JokerType::ZanyJoker => "Zany Joker",
            JokerType::CrazyJoker => "Crazy Joker",
            JokerType::HalfJoker => "Half Joker",
            JokerType::Banner => "Banner",
            JokerType::OddTodd => "Odd Todd",
            JokerType::Scholar => "Scholar",
            JokerType::SteelJoker => "Steel Joker",
            JokerType::Blackboard => "Blackboard",
            JokerType::TheDuo => "The Duo",
            JokerType::Egg => "Egg",
            JokerType::GoldenJoker => "Golden Joker",
            JokerType::Hack => "Hack",
            JokerType::Blueprint => "Blueprint",
            JokerType::TheTrio => "The Trio",
        }
    }

    pub open spec fn spec_description(self) -> Seq<char> {
        match self {
            JokerType::Joker => "+4 Mult"@,
            JokerType::GreedyJoker => "+3 Mult per Diamond"@,
            JokerType::LustyJoker => "+3 Mult per Heart"@,
            JokerType::WrathfulJoker => "+3 Mult per Spade"@,
            JokerType::GluttonousJoker => "+3 Mult per Club"@,
            JokerType::JollyJoker => "+8 Mult if Pair in hand"@,
            JokerType::ZanyJoker => "+12 Mult if Three of a Kind"@,
            JokerType::CrazyJoker => "+12 Mult if Straight"@,
            JokerType::HalfJoker => "+20 Mult if <=3 cards"@,
            JokerType::Banner => "+30 Chips per discard left"@,
            JokerType::OddTodd => "+31 Chips per odd card"@,
            JokerType::Scholar => "+20 Chips, +4 Mult per Ace"@,
            JokerType::SteelJoker => "x0.2 Mult per Steel card"@,
            JokerType::Blackboard => "x3 if held cards all dark"@,
            JokerType::TheDuo => "x2 Mult if Pair in hand"@,
            JokerType::Egg => "+$3 sell value per round"@,
            JokerType::GoldenJoker => "+$4 at end of round"@,
            JokerType::Hack => "Retrigger 2,3,4,5 cards"@,
            JokerType::Blueprint => "Copy joker to the right"@,
            JokerType::TheTrio => "x3 if Three of a Kind"@,
        }
    }

    pub fn description(&self) -> (r: &'static str)
        ensures
            r@ == self.spec_description(),
    {
        match self {
            JokerType::Joker => "+4 Mult",
            JokerType::GreedyJoker => "+3 Mult per Diamond",
            JokerType::LustyJoker => "+3 Mult per Heart",
            JokerType::WrathfulJoker => "+3 Mult per Spade",
            JokerType::GluttonousJoker => "+3 Mult per Club",
            JokerType::JollyJoker => "+8 Mult if Pair in hand",
            JokerType::ZanyJoker => "+12 Mult if Three of a Kind",
            JokerType::CrazyJoker => "+12 Mult if Straight",
            JokerType::HalfJoker => "+20 Mult if <=3 cards",
            JokerType::Banner => "+30 Chips per discard left",
            JokerType::OddTodd => "+31 Chips per odd card",
            JokerType::Scholar => "+20 Chips, +4 Mult per Ace",
            JokerType::SteelJoker => "x0.2 Mult per Steel card",
            JokerType::Blackboard => "x3 if held cards all dark",
            JokerType::TheDuo => "x2 Mult if Pair in hand",
            JokerType::Egg => "+$3 sell value per round",
            JokerType::GoldenJoker => "+$4 at end of round",
            JokerType::Hack => "Retrigger 2,3,4,5 cards",
            JokerType::Blueprint => "Copy joker to the right",
            JokerType::TheTrio => "x3 if Three of a Kind",
        }
    }

    pub open spec fn spec_rarity(self) -> JokerRarity {
        match self {
            JokerType::Scholar | JokerType::SteelJoker | JokerType::TheDuo | JokerType::TheTrio => {
                JokerRarity::Uncommon
            },
            JokerType::Blackboard | JokerType::Blueprint => JokerRarity::Rare,
            _ => JokerRarity::Common,
        }
    }

    pub fn rarity(&self) -> (r: JokerRarity)
        ensures
            r == self.spec_rarity(),
    {
        match self {
            JokerType::Scholar | JokerType::SteelJoker | JokerType::TheDuo | JokerType::TheTrio => {
                JokerRarity::Uncommon
            },
            JokerType::Blackboard | JokerType::Blueprint => JokerRarity::Rare,
            _ => JokerRarity::Common,
        }
    }

    pub open spec fn spec_price(self) -> u32 {
        self.spec_rarity().spec_base_price()
    }

    pub fn price(&self) -> (r: u32)
        ensures
            r == self.spec_price(),
            r <= 20,
    {
        self.rarity().base_price()
    }
}

/// A joker instance owned by the player
#[derive(Debug, Clone, Copy, PartialEq, Eq, Structural)]
pub struct Joker {
    pub joker_type: JokerType,
    pub sell_value: u32,
    /// Extra sell value accumulated over rounds (Egg)
    pub bonus_sell: u32,
}

/// `a + b`, held at `u32::MAX`.
pub open spec fn sat_add_u32(a: int, b: int) -> u32 {
    if a + b > u32::MAX {
        u32::MAX
    } else {
        (a + b) as u32
    }
}

impl Joker {
    /// A fresh joker: it sells for half its price and has no bonus yet.
    pub open spec fn spec_new(joker_type: JokerType) -> Joker {
        Joker { joker_type, sell_value: joker_type.spec_price() / 2, bonus_sell: 0 }
    }

    pub fn new(joker_type: JokerType) -> (r: Self)
        ensures
            r == Joker::spec_new(joker_type),
    {
        Joker { sell_value: joker_type.price() / 2, bonus_sell: 0, joker_type }
    }

    pub open spec fn spec_total_sell_value(self) -> u32 {
        sat_add_u32(self.sell_value as int, self.bonus_sell as int)
    }

    /// Sell value plus accumulated bonus (held at `u32::MAX`).
    pub fn total_sell_value(&self) -> (r: u32)
        ensures
            r == self.spec_total_sell_value(),
    {
        self.sell_value.saturating_add(self.bonus_sell)
    }
}

/// Context needed for joker effect evaluation
pub struct JokerContext<'a> {
    pub played_cards: &'a [PlayingCard],
    pub scoring_indices: &'a [usize],
    pub hand_type: PokerHand,
    pub held_cards: &'a [PlayingCard],
    pub discards_remaining: u8,
    pub num_played: usize,
}

/// The effect a joker applies to scoring
#[derive(Debug, Clone)]
pub enum JokerEffect {
    /// Add flat chips
    AddChips(u64),
    /// Add flat mult
    AddMult(u64),
    /// Multiply mult
    XMult(Ratio),
    /// Add chips for specific scoring card indices
    AddChipsPerCard { card_indices: Vec<usize>, chips_each: u64 },
    /// Add mult for specific scoring card indices
    AddMultPerCard { card_indices: Vec<usize>, mult_each: u64 },
    /// Add both chips and mult for specific cards
    AddChipsAndMultPerCard { card_indices: Vec<usize>, chips_each: u64, mult_each: u64 },
    /// Retrigger specific scoring cards
    Retrigger { card_indices: Vec<usize> },
    /// No scoring effect (economy jokers)
    NoEffect,
}

/// What a `JokerEffect` stands for, with its index lists as sequences.
pub enum EffectModel {
    AddChips(u64),
    AddMult(u64),
    XMult(Ratio),
    AddChipsPerCard { card_indices: Seq<usize>, chips_each: u64 },
    AddMultPerCard { card_indices: Seq<usize>, mult_each: u64 },
    AddChipsAndMultPerCard { card_indices: Seq<usize>, chips_each: u64, mult_each: u64 },
    Retrigger { card_indices: Seq<usize> },
    NoEffect,
}

impl View for JokerEffect {
    type V = EffectModel;

    open spec fn view(&self) -> EffectModel {
        match self {
            JokerEffect::AddChips(c) => EffectModel::AddChips(*c),
            JokerEffect::AddMult(m) => EffectModel::AddMult(*m),
            JokerEffect::XMult(x) => EffectModel::XMult(*x),
            JokerEffect::AddChipsPerCard { card_indices, chips_each } => EffectModel::AddChipsPerCard {
                card_indices: card_indices@,
                chips_each: *chips_each,
            },
            JokerEffect::AddMultPerCard { card_indices, mult_each } => EffectModel::AddMultPerCard {
                card_indices: card_indices@,
                mult_each: *mult_each,
            },
            JokerEffect::AddChipsAndMultPerCard { card_indices, chips_each, mult_each } => {
                EffectModel::AddChipsAndMultPerCard {
                    card_indices: card_indices@,
                    chips_each: *chips_each,
                    mult_each: *mult_each,
                }
            },
            JokerEffect::Retrigger { card_indices } => EffectModel::Retrigger {
                card_indices: card_indices@,
            },
            JokerEffect::NoEffect => EffectModel::NoEffect,
        }
    }
}

/// Which played cards a per-card joker looks for.
#[derive(Debug, Clone, Copy, PartialEq, Eq, Structural)]
pub enum CardFilter {
    /// Cards counting as the suit (wild cards count as every suit)
    OfSuit(Suit),
    /// Cards of odd rank value: 3, 5, 7, 9, Jack, King
    OddRank,
    /// Aces
    Ace,
    /// Twos, Threes, Fours and Fives
    LowRank,
}

impl CardFilter {
    pub open spec fn spec_accepts(self, card: PlayingCard) -> bool {
        match self {
            CardFilter::OfSuit(s) => card.spec_counts_as(s),
            CardFilter::OddRank => card.rank.spec_value() % 2 == 1,
            CardFilter::Ace => card.rank.spec_value() == 14,
            CardFilter::LowRank => card.rank.spec_value() <= 5,
        }
    }

    pub fn accepts(&self, card: &PlayingCard) -> (r: bool)
        ensures
            r == self.spec_accepts(*card),
    {
        match self {
            CardFilter::OfSuit(s) => card.counts_as(*s),
            CardFilter::OddRank => card.rank.value() % 2 == 1,
            CardFilter::Ace => card.rank.value() == 14,
            CardFilter::LowRank => card.rank.value() <= 5,
        }
    }
}

/// The entries of `indices`, in order, that name a played card accepted by `filter`
/// (entries past the end of `played` are left out).
pub open spec fn select_indices(
    played: Seq<PlayingCard>,
    indices: Seq<usize>,
    filter: CardFilter,
) -> Seq<usize>
    decreases indices.len(),
{
    if indices.len() == 0 {
        seq![]
    } else {
        let rest = select_indices(played, indices.drop_last(), filter);
        let i = indices.last();
        if (i as int) < played.len() && filter.spec_accepts(played[i as int]) {
            rest.push(i)
        } else {
            rest
        }
    }
}

/// Number of cards with the Steel enhancement.
pub open spec fn steel_count(cards: Seq<PlayingCard>) -> nat
    decreases cards.len(),
{
    if cards.len() == 0 {
        0
    } else {
        steel_count(cards.drop_last()) + if cards.last().enhancement == Some(Enhancement::Steel) {
            1nat
        } else {
            0nat
        }
    }
}

/// Every card is a Spade or a Club (wild cards count as either).
pub open spec fn all_dark(cards: Seq<PlayingCard>) -> bool {
    forall|i: int|
        0 <= i < cards.len() ==> (#[trigger] cards[i]).spec_counts_as(Suit::Spades)
            || cards[i].spec_counts_as(Suit::Clubs)
}

/// Mult per card for the suit jokers, or nothing when no card matches.
pub open spec fn per_card_mult(selected: Seq<usize>, each: u64) -> EffectModel {
    if selected.len() == 0 {
        EffectModel::NoEffect
    } else {
        EffectModel::AddMultPerCard { card_indices: selected, mult_each: each }
    }
}

/// `v` when `cond` holds, no effect otherwise.
pub open spec fn when(cond: bool, v: EffectModel) -> EffectModel {
    if cond {
        v
    } else {
        EffectModel::NoEffect
    }
}

/// The effect of a joker of type `jtype` in a scoring context.
pub open spec fn effect_of(
    jtype: JokerType,
    played: Seq<PlayingCard>,
    scoring: Seq<usize>,
    hand_type: PokerHand,
    held: Seq<PlayingCard>,
    discards_remaining: u8,
    num_played: int,
) -> EffectModel {
    let strength = hand_type.spec_strength();
    match jtype {
        JokerType::Joker => EffectModel::AddMult(4),
        JokerType::GreedyJoker => per_card_mult(
            select_indices(played, scoring, CardFilter::OfSuit(Suit::Diamonds)),
            3,
        ),
        JokerType::LustyJoker => per_card_mult(
            select_indices(played, scoring, CardFilter::OfSuit(Suit::Hearts)),
            3,
        ),
        JokerType::WrathfulJoker => per_card_mult(
            select_indices(played, scoring, CardFilter::OfSuit(Suit::Spades)),
            3,
        ),
        JokerType::GluttonousJoker => per_card_mult(
            select_indices(played, scoring, CardFilter::OfSuit(Suit::Clubs)),
            3,
        ),
        JokerType::JollyJoker => when(strength >= 1, EffectModel::AddMult(8)),
        JokerType::ZanyJoker => when(strength >= 3, EffectModel::AddMult(12)),
        JokerType::CrazyJoker => when(strength >= 4, EffectModel::AddMult(12)),
        JokerType::HalfJoker => when(num_played <= 3, EffectModel::AddMult(20)),
        JokerType::Banner => EffectModel::AddChips((discards_remaining * 30) as u64),
        JokerType::OddTodd => {
            let sel = select_indices(played, scoring, CardFilter::OddRank);
            when(
                sel.len() > 0,
                EffectModel::AddChipsPerCard { card_indices: sel, chips_each: 31 },
            )
        },
        JokerType::Scholar => {
            let sel = select_indices(played, scoring, CardFilter::Ace);
            when(
                sel.len() > 0,
                EffectModel::AddChipsAndMultPerCard { card_indices: sel, chips_each: 20, mult_each: 4 },
            )
        },
        JokerType::SteelJoker => {
            let k = steel_count(held);
            when(k > 0, EffectModel::XMult(Ratio { num: sat_add_u64(5, k as int), den: 5 }))
        },
        JokerType::Blackboard => when(
            all_dark(held) && held.len() > 0,
            EffectModel::XMult(Ratio { num: 3, den: 1 }),
        ),
        JokerType::TheDuo => when(strength >= 1, EffectModel::XMult(Ratio { num: 2, den: 1 })),
        JokerType::TheTrio => when(strength >= 3, EffectModel::XMult(Ratio { num: 3, den: 1 })),
        JokerType::Egg | JokerType::GoldenJoker | JokerType::Blueprint => EffectModel::NoEffect,
        JokerType::Hack => {
            let sel = select_indices(played, scoring, CardFilter::LowRank);
            when(sel.len() > 0, EffectModel::Retrigger { card_indices: sel })
        },
    }
}

/// `a + b`, held at `u64::MAX`.
pub open spec fn sat_add_u64(a: int, b: int) -> u64 {
    if a + b > u64::MAX {
        u64::MAX
    } else {
        (a + b) as u64
    }
}

impl<'a> JokerContext<'a> {
    /// The effect of a joker of type `jtype` in this context.
    pub open spec fn effect_for(self, jtype: JokerType) -> EffectModel {
        effect_of(
            jtype,
            self.played_cards@,
            self.scoring_indices@,
            self.hand_type,
            self.held_cards@,
            self.discards_remaining,
            self.num_played as int,
        )
    }
}

/// The type whose effect a joker produces: its own, or for Blueprint the next joker's
/// (none when Blueprint has no joker to its right).
pub open spec fn resolved_type(jtype: JokerType, next: Option<JokerType>) -> Option<JokerType> {
    if jtype == JokerType::Blueprint {
        next
    } else {
        Some(jtype)
    }
}

/// The effect of a joker whose right-hand neighbour has type `next`.
pub open spec fn joker_effect(ctx: JokerContext, jtype: JokerType, next: Option<JokerType>) -> EffectModel {
    match resolved_type(jtype, next) {
        Some(t) => ctx.effect_for(t),
        None => EffectModel::NoEffect,
    }
}

fn select_indices_exec(played: &[PlayingCard], indices: &[usize], filter: CardFilter) -> (r: Vec<usize>)
    ensures
        r@ == select_indices(played@, indices@, filter),
{
    let mut out: Vec<usize> = Vec::new();
    let mut k: usize = 0;
    while k < indices.len()
        invariant
            k <= indices@.len(),
            out@ == select_indices(played@, indices@.take(k as int), filter),
        decreases indices@.len() - k,
    {
        proof {
            assert(indices@.take(k as int + 1).drop_last() =~= indices@.take(k as int));
        }
        let i = indices[k];
        if i < played.len() && filter.accepts(&played[i]) {
            out.push(i);
        }
        k += 1;
    }
    proof {
        assert(indices@.take(indices@.len() as int) =~= indices@);
    }
    out
}

fn steel_count_exec(cards: &[PlayingCard]) -> (r: u64)
    ensures
        r == sat_add_u64(0, steel_count(cards@) as int),
{
    let mut c: u64 = 0;
    let mut k: usize = 0;
    while k < cards.len()
        invariant
            k <= cards@.len(),
            c == sat_add_u64(0, steel_count(cards@.take(k as int)) as int),
        decreases cards@.len() - k,
    {
        proof {
            assert(cards@.take(k as int + 1).drop_last() =~= cards@.take(k as int));
        }
        match cards[k].enhancement {
            Some(Enhancement::Steel) => {
                c = c.saturating_add(1);
            },
            _ => {},
        }
        k += 1;
    }
    proof {
        assert(cards@.take(cards@.len() as int) =~= cards@);
    }
    c
}

fn all_dark_exec(cards: &[PlayingCard]) -> (r: bool)
    ensures
        r == all_dark(cards@),
{
    let mut k: usize = 0;
    while k < cards.len()
        invariant
            k <= cards@.len(),
            forall|i: int|
                0 <= i < k ==> (#[trigger] cards@[i]).spec_counts_as(Suit::Spades)
                    || cards@[i].spec_counts_as(Suit::Clubs),
        decreases cards@.len() - k,
    {
        if !(cards[k].counts_as(Suit::Spades) || cards[k].counts_as(Suit::Clubs)) {
            return false;
        }
        k += 1;
    }
    true
}

fn suit_mult_joker(ctx: &JokerContext, suit: Suit, mult_per: u64) -> (r: JokerEffect)
    ensures
        r@ == per_card_mult(
            select_indices(ctx.played_cards@, ctx.scoring_indices@, CardFilter::OfSuit(suit)),
            mult_per,
        ),
{
    let matching = select_indices_exec(ctx.played_cards, ctx.scoring_indices, CardFilter::OfSuit(suit));
    if matching.len() == 0 {
        JokerEffect::NoEffect
    } else {
        JokerEffect::AddMultPerCard { card_indices: matching, mult_each: mult_per }
    }
}

fn hand_contains_at_least(ctx: &JokerContext, min_hand: PokerHand) -> (r: bool)
    ensures
        r == (ctx.hand_type.spec_strength() >= min_hand.spec_strength()),
{
    ctx.hand_type.at_least(min_hand)
}

fn evaluate_type(jtype: JokerType, ctx: &JokerContext) -> (r: JokerEffect)
    ensures
        r@ == ctx.effect_for(jtype),
{
    match jtype {
        JokerType::Joker => JokerEffect::AddMult(4),
        JokerType::GreedyJoker => suit_mult_joker(ctx, Suit::Diamonds, 3),
        JokerType::LustyJoker => suit_mult_joker(ctx, Suit::Hearts, 3),
        JokerType::WrathfulJoker => suit_mult_joker(ctx, Suit::Spades, 3),
        JokerType::GluttonousJoker => suit_mult_joker(ctx, Suit::Clubs, 3),
        JokerType::JollyJoker => {
            if hand_contains_at_least(ctx, PokerHand::Pair) {
                JokerEffect::AddMult(8)
            } else {
                JokerEffect::NoEffect
            }
        },
        JokerType::ZanyJoker => {
            if hand_contains_at_least(ctx, PokerHand::ThreeOfAKind) {
                JokerEffect::AddMult(12)
            } else {
                JokerEffect::NoEffect
            }
        },
        JokerType::CrazyJoker => {
            if hand_contains_at_least(ctx, PokerHand::Straight) {
                JokerEffect::AddMult(12)
            } else {
                JokerEffect::NoEffect
            }
        },
        JokerType::HalfJoker => {
            if ctx.num_played <= 3 {
                JokerEffect::AddMult(20)
            } else {
                JokerEffect::NoEffect
            }
        },
        JokerType::Banner => JokerEffect::AddChips(ctx.discards_remaining as u64 * 30),
        JokerType::OddTodd => {
            let odd_indices = select_indices_exec(
                ctx.played_cards,
                ctx.scoring_indices,
                CardFilter::OddRank,
            );
            if odd_indices.len() == 0 {
                JokerEffect::NoEffect
            } else {
                JokerEffect::AddChipsPerCard { card_indices: odd_indices, chips_each: 31 }
            }
        },
        JokerType::Scholar => {
            let ace_indices = select_indices_exec(
                ctx.played_cards,
                ctx.scoring_indices,
                CardFilter::Ace,
            );
            if ace_indices.len() == 0 {
                JokerEffect::NoEffect
            } else {
                JokerEffect::AddChipsAndMultPerCard {
                    card_indices: ace_indices,
                    chips_each: 20,
                    mult_each: 4,
                }
            }
        },
        JokerType::SteelJoker => {
            let steel = steel_count_exec(ctx.held_cards);
            if steel > 0 {
                JokerEffect::XMult(Ratio { num: steel.saturating_add(5), den: 5 })
            } else {
                JokerEffect::NoEffect
            }
        },
        JokerType::Blackboard => {
            if all_dark_exec(ctx.held_cards) && ctx.held_cards.len() > 0 {
                JokerEffect::XMult(Ratio { num: 3, den: 1 })
            } else {
                JokerEffect::NoEffect
            }
        },
        JokerType::TheDuo => {
            if hand_contains_at_least(ctx, PokerHand::Pair) {
                JokerEffect::XMult(Ratio { num: 2, den: 1 })
            } else {
                JokerEffect::NoEffect
            }
        },
        JokerType::TheTrio => {
            if hand_contains_at_least(ctx, PokerHand::ThreeOfAKind) {
                JokerEffect::XMult(Ratio { num: 3, den: 1 })
            } else {
                JokerEffect::NoEffect
            }
        },
        JokerType::Egg | JokerType::GoldenJoker | JokerType::Blueprint => JokerEffect::NoEffect,
        JokerType::Hack => {
            let retrigger_indices = select_indices_exec(
                ctx.played_cards,
                ctx.scoring_indices,
                CardFilter::LowRank,
            );
            if retrigger_indices.len() == 0 {
                JokerEffect::NoEffect
            } else {
                JokerEffect::Retrigger { card_indices: retrigger_indices }
            }
        },
    }
}

/// Evaluate a joker's effect given the current context.
/// For Blueprint, pass the next joker's type to copy.
pub fn evaluate_joker(joker: &Joker, ctx: &JokerContext, next_joker_type: Option<JokerType>) -> (r:
    JokerEffect)
    ensures
        r@ == joker_effect(*ctx, joker.joker_type, next_joker_type),
{
    let jtype = if joker.joker_type == JokerType::Blueprint {
        match next_joker_type {
            Some(t) => t,
            None => return JokerEffect::NoEffect,
        }
    } else {
        joker.joker_type
    };
    evaluate_type(jtype, ctx)
}

/// Blueprint with no joker to its right has no effect, whatever the context.
pub proof fn lemma_blueprint_last_has_no_effect(ctx: JokerContext)
    ensures
        joker_effect(ctx, JokerType::Blueprint, None) == EffectModel::NoEffect,
{
}

} // verus!
