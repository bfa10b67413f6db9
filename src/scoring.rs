use vstd::prelude::*;

use crate::card::{PlayingCard, Ratio};
use crate::hand::{detect_hand, hand_type_of, scoring_indices_of, PokerHand};
use crate::joker::{
    effect_of, evaluate_joker, resolved_type, EffectModel, Joker, JokerContext, JokerEffect,
};

verus! {

/// A single step in the scoring process, in the order it is applied
#[derive(Debug, Clone, Copy, PartialEq, Eq, Structural)]
pub enum ScoreStep {
    /// The base hand type contributes chips and mult
    BaseHand { hand_type: PokerHand, chips: u64, mult: u64 },
    /// A played card adds its chip value
    CardChips { card_index: usize, chips: u64 },
    /// A played card adds flat mult (enhancement/edition)
    CardMult { card_index: usize, mult: u64 },
    /// A played card applies multiplicative mult (glass/polychrome)
    CardXMult { card_index: usize, x_mult: Ratio },
    /// A joker adds flat chips
    JokerChips { joker_index: usize, chips: u64 },
    /// A joker adds flat mult
    JokerMult { joker_index: usize, mult: u64 },
    /// A joker applies multiplicative mult
    JokerXMult { joker_index: usize, x_mult: Ratio },
}

/// Result of scoring a hand
#[derive(Debug, Clone)]
pub struct ScoreResult {
    pub hand_type: PokerHand,
    /// Indices of cards that are part of the poker hand (scoring cards)
    pub scoring_indices: Vec<usize>,
    pub steps: Vec<ScoreStep>,
    pub total_chips: u64,
    pub total_mult: u64,
    pub final_score: u64,
}

/// Hand level state: the level of each poker hand, indexed by its strength
#[derive(Debug)]
pub struct HandLevels {
    levels: Vec<u8>,
}

impl View for HandLevels {
    type V = Seq<u8>;

    closed spec fn view(&self) -> Seq<u8> {
        self.levels@
    }
}

/// The level of `hand` in a table of levels.
pub open spec fn level_of(levels: Seq<u8>, hand: PokerHand) -> u8 {
    levels[hand.spec_strength() as int]
}

/// A table of levels: one entry per hand, each at least 1.
pub open spec fn levels_wf(levels: Seq<u8>) -> bool {
    levels.len() == 13 && forall|i: int| 0 <= i < 13 ==> levels[i] >= 1
}

/// The table after one level-up of `hand` (a level stays at 255 once there).
pub open spec fn leveled_up(levels: Seq<u8>, hand: PokerHand) -> Seq<u8> {
    let s = hand.spec_strength() as int;
    levels.update(s, if levels[s] == 255 { 255u8 } else { (levels[s] + 1) as u8 })
}

/// The table after levelling up each hand of `ups` in turn.
pub open spec fn leveled_up_all(levels: Seq<u8>, ups: Seq<PokerHand>) -> Seq<u8>
    decreases ups.len(),
{
    if ups.len() == 0 {
        levels
    } else {
        leveled_up(leveled_up_all(levels, ups.drop_last()), ups.last())
    }
}

/// Chips of `hand` at its level: base chips plus one increment per level above 1.
pub open spec fn chips_at(levels: Seq<u8>, hand: PokerHand) -> u64 {
    (hand.spec_base_chips() + (level_of(levels, hand) - 1) * hand.spec_level_up_chips()) as u64
}

/// Mult of `hand` at its level: base mult plus one increment per level above 1.
pub open spec fn mult_at(levels: Seq<u8>, hand: PokerHand) -> u64 {
    (hand.spec_base_mult() + (level_of(levels, hand) - 1) * hand.spec_level_up_mult()) as u64
}

impl HandLevels {
    #[verifier::type_invariant]
    spec fn inv(&self) -> bool {
        levels_wf(self.levels@)
    }

    /// Every hand at level 1.
    pub fn new() -> (r: Self)
        ensures
            r@ == Seq::new(13, |i: int| 1u8),
            levels_wf(r@),
    {
        let levels: Vec<u8> = vec![1, 1, 1, 1, 1, 1, 1, 1, 1, 1, 1, 1, 1];
        proof {
            assert(levels@ =~= Seq::new(13, |i: int| 1u8));
        }
        HandLevels { levels }
    }

    pub fn get_level(&self, hand: &PokerHand) -> (r: u8)
        ensures
            r == level_of(self@, *hand),
            r >= 1,
            levels_wf(self@),
    {
        proof {
            use_type_invariant(self);
        }
        self.levels[hand.strength() as usize]
    }

    /// Raise the level of `hand` by one (it stays at 255 once there).
    pub fn level_up(&mut self, hand: PokerHand)
        ensures
            final(self)@ == leveled_up(old(self)@, hand),
            levels_wf(old(self)@),
            levels_wf(final(self)@),
    {
        proof {
            use_type_invariant(&*self);
        }
        let s = hand.strength() as usize;
        let cur = self.levels[s];
        let next: u8 = if cur == 255 { 255 } else { cur + 1 };
        let ghost target = leveled_up(self.levels@, hand);
        let mut levels: Vec<u8> = Vec::new();
        let mut i: usize = 0;
        while i < 13
            invariant
                i <= 13,
                self.levels@.len() == 13,
                target.len() == 13,
                s < 13,
                target == self.levels@.update(s as int, next),
                levels@ == target.take(i as int),
            decreases 13 - i,
        {
            if i == s {
                levels.push(next);
            } else {
                levels.push(self.levels[i]);
            }
            proof {
                assert(levels@ =~= target.take(i as int + 1));
            }
            i += 1;
        }
        proof {
            assert(levels@ =~= target);
        }
        self.levels = levels;
    }

    /// Get chips for a hand at its current level
    pub fn chips_for(&self, hand: &PokerHand) -> (r: u64)
        ensures
            r == chips_at(self@, *hand),
    {
        let level = self.get_level(hand);
        let inc = hand.level_up_chips();
        let steps = level as u64 - 1;
        assert(steps * inc <= 254 * 50) by (nonlinear_arith)
            requires
                steps <= 254,
                inc <= 50,
        ;
        hand.base_chips() + steps * inc
    }

    /// Get mult for a hand at its current level
    pub fn mult_for(&self, hand: &PokerHand) -> (r: u64)
        ensures
            r == mult_at(self@, *hand),
    {
        let level = self.get_level(hand);
        let inc = hand.level_up_mult();
        let steps = level as u64 - 1;
        assert(steps * inc <= 254 * 4) by (nonlinear_arith)
            requires
                steps <= 254,
                inc <= 4,
        ;
        hand.base_mult() + steps * inc
    }
}

impl Clone for HandLevels {
    fn clone(&self) -> (r: Self)
        ensures
            r@ == self@,
    {
        proof {
            use_type_invariant(self);
        }
        let mut levels: Vec<u8> = Vec::new();
        let mut i: usize = 0;
        while i < self.levels.len()
            invariant
                i <= self.levels@.len(),
                levels@ == self.levels@.take(i as int),
            decreases self.levels@.len() - i,
        {
            levels.push(self.levels[i]);
            proof {
                assert(levels@ =~= self.levels@.take(i as int + 1));
            }
            i += 1;
        }
        proof {
            assert(levels@ =~= self.levels@);
        }
        HandLevels { levels }
    }
}

impl Default for HandLevels {
    fn default() -> (r: Self)
        ensures
            r@ == Seq::new(13, |i: int| 1u8),
    {
        HandLevels::new()
    }
}

/// Levels never go down: after any sequence of level-ups every hand is at least at the level
/// it started at.
pub proof fn lemma_levels_never_decrease(levels: Seq<u8>, ups: Seq<PokerHand>)
    requires
        levels_wf(levels),
    ensures
        levels_wf(leveled_up_all(levels, ups)),
        forall|h: PokerHand| level_of(#[trigger] leveled_up_all(levels, ups), h) >= level_of(levels, h),
    decreases ups.len(),
{
    if ups.len() > 0 {
        lemma_levels_never_decrease(levels, ups.drop_last());
        let prev = leveled_up_all(levels, ups.drop_last());
        assert forall|h: PokerHand| level_of(#[trigger] leveled_up_all(levels, ups), h) >= level_of(levels, h) by {
            assert(level_of(prev, h) >= level_of(levels, h));
        }
    }
}

// ---------------------------------------------------------------------------
// The step log.
// ---------------------------------------------------------------------------

/// The steps a played card contributes: its chips, its flat mult and its multiplier, each
/// only when it changes the score. Nothing for an index past the end.
pub open spec fn card_steps(cards: Seq<PlayingCard>, i: usize) -> Seq<ScoreStep> {
    if i >= cards.len() {
        seq![]
    } else {
        let c = cards[i as int];
        let chips = c.spec_chip_value();
        let mult = c.spec_mult_bonus();
        let x = c.spec_x_mult();
        (if chips > 0 {
            seq![ScoreStep::CardChips { card_index: i, chips }]
        } else {
            seq![]
        }) + (if mult > 0 {
            seq![ScoreStep::CardMult { card_index: i, mult }]
        } else {
            seq![]
        }) + (if !x.is_one() {
            seq![ScoreStep::CardXMult { card_index: i, x_mult: x }]
        } else {
            seq![]
        })
    }
}

/// The steps of the cards among the first `k` whose positions are in `indices`, in
/// ascending position order.
pub open spec fn scored_steps(cards: Seq<PlayingCard>, indices: Seq<usize>, k: int) -> Seq<
    ScoreStep,
>
    decreases k,
{
    if k <= 0 {
        seq![]
    } else {
        scored_steps(cards, indices, k - 1) + if indices.contains((k - 1) as usize) {
            card_steps(cards, (k - 1) as usize)
        } else {
            seq![]
        }
    }
}

/// Chips of the always-scoring cards among the first `k` that are not in `scoring`.
pub open spec fn stone_steps(cards: Seq<PlayingCard>, scoring: Seq<usize>, k: int) -> Seq<ScoreStep>
    decreases k,
{
    if k <= 0 {
        seq![]
    } else {
        let i = k - 1;
        let c = cards[i];
        stone_steps(cards, scoring, k - 1) + if c.spec_always_scores() && !scoring.contains(
            i as usize,
        ) && c.spec_chip_value() > 0 {
            seq![ScoreStep::CardChips { card_index: i as usize, chips: c.spec_chip_value() }]
        } else {
            seq![]
        }
    }
}

/// `n` copies of `step`.
pub open spec fn repeated(step: ScoreStep, n: int) -> Seq<ScoreStep>
    decreases n,
{
    if n <= 0 {
        seq![]
    } else {
        repeated(step, n - 1).push(step)
    }
}

/// `n` pairs of a chips step followed by a mult step.
pub open spec fn paired(chips: ScoreStep, mult: ScoreStep, n: int) -> Seq<ScoreStep>
    decreases n,
{
    if n <= 0 {
        seq![]
    } else {
        paired(chips, mult, n - 1).push(chips).push(mult)
    }
}

/// The steps a joker in slot `j` emits for an effect.
pub open spec fn effect_steps(e: EffectModel, j: usize, cards: Seq<PlayingCard>) -> Seq<ScoreStep> {
    match e {
        EffectModel::AddChips(c) => if c > 0 {
            seq![ScoreStep::JokerChips { joker_index: j, chips: c }]
        } else {
            seq![]
        },
        EffectModel::AddMult(m) => if m > 0 {
            seq![ScoreStep::JokerMult { joker_index: j, mult: m }]
        } else {
            seq![]
        },
        EffectModel::XMult(x) => if !x.is_one() {
            seq![ScoreStep::JokerXMult { joker_index: j, x_mult: x }]
        } else {
            seq![]
        },
        EffectModel::AddChipsPerCard { card_indices, chips_each } => repeated(
            ScoreStep::JokerChips { joker_index: j, chips: chips_each },
            card_indices.len() as int,
        ),
        EffectModel::AddMultPerCard { card_indices, mult_each } => repeated(
            ScoreStep::JokerMult { joker_index: j, mult: mult_each },
            card_indices.len() as int,
        ),
        EffectModel::AddChipsAndMultPerCard { card_indices, chips_each, mult_each } => paired(
            ScoreStep::JokerChips { joker_index: j, chips: chips_each },
            ScoreStep::JokerMult { joker_index: j, mult: mult_each },
            card_indices.len() as int,
        ),
        EffectModel::Retrigger { card_indices } => scored_steps(cards, card_indices, cards.len() as int),
        EffectModel::NoEffect => seq![],
    }
}

/// The type of the joker to the right of slot `j`, if any.
pub open spec fn next_type(jokers: Seq<Joker>, j: int) -> Option<crate::joker::JokerType> {
    if j + 1 < jokers.len() {
        Some(jokers[j + 1].joker_type)
    } else {
        None
    }
}

/// The effect of the joker in slot `j` when `cards` are played and `held` stay in hand.
pub open spec fn slot_effect(
    cards: Seq<PlayingCard>,
    jokers: Seq<Joker>,
    held: Seq<PlayingCard>,
    discards: u8,
    j: int,
) -> EffectModel {
    match resolved_type(jokers[j].joker_type, next_type(jokers, j)) {
        Some(t) => effect_of(
            t,
            cards,
            scoring_indices_of(cards),
            hand_type_of(cards),
            held,
            discards,
            cards.len() as int,
        ),
        None => EffectModel::NoEffect,
    }
}

/// The steps of the jokers in slots `0..k`, in slot order.
pub open spec fn joker_steps(
    cards: Seq<PlayingCard>,
    jokers: Seq<Joker>,
    held: Seq<PlayingCard>,
    discards: u8,
    k: int,
) -> Seq<ScoreStep>
    decreases k,
{
    if k <= 0 {
        seq![]
    } else {
        joker_steps(cards, jokers, held, discards, k - 1) + effect_steps(
            slot_effect(cards, jokers, held, discards, k - 1),
            (k - 1) as usize,
            cards,
        )
    }
}

/// The whole step log: the base hand, the scoring cards in index order, the always-scoring
/// cards outside the hand, then the jokers in slot order.
pub open spec fn score_steps(
    cards: Seq<PlayingCard>,
    levels: Seq<u8>,
    jokers: Seq<Joker>,
    held: Seq<PlayingCard>,
    discards: u8,
) -> Seq<ScoreStep> {
    let ht = hand_type_of(cards);
    let scoring = scoring_indices_of(cards);
    seq![ScoreStep::BaseHand { hand_type: ht, chips: chips_at(levels, ht), mult: mult_at(levels, ht) }]
        + scored_steps(cards, scoring, cards.len() as int) + stone_steps(cards, scoring, cards.len() as int)
        + joker_steps(cards, jokers, held, discards, jokers.len() as int)
}

// ---------------------------------------------------------------------------
// Replaying the log.
// ---------------------------------------------------------------------------

pub open spec fn sat_u64(x: int) -> u64 {
    if x > u64::MAX {
        u64::MAX
    } else {
        x as u64
    }
}

pub open spec fn sat_u128(x: int) -> u128 {
    if x > u128::MAX {
        u128::MAX
    } else {
        x as u128
    }
}

/// Running totals: chips, and the mult as the fraction `num / den`.
pub struct Totals {
    pub chips: u64,
    pub num: u128,
    pub den: u128,
}

/// Apply one step to the running totals: chips add, flat mult adds, a multiplier multiplies
/// the mult (each value held at its type's maximum).
pub open spec fn apply_step(t: Totals, s: ScoreStep) -> Totals {
    match s {
        ScoreStep::BaseHand { chips, mult, .. } => Totals {
            chips: sat_u64(t.chips + chips),
            num: sat_u128(t.num + mult * t.den),
            den: t.den,
        },
        ScoreStep::CardChips { chips, .. } | ScoreStep::JokerChips { chips, .. } => Totals {
            chips: sat_u64(t.chips + chips),
            ..t
        },
        ScoreStep::CardMult { mult, .. } | ScoreStep::JokerMult { mult, .. } => Totals {
            num: sat_u128(t.num + mult * t.den),
            ..t
        },
        ScoreStep::CardXMult { x_mult, .. } | ScoreStep::JokerXMult { x_mult, .. } => if x_mult.den
            == 0 {
            t
        } else {
            Totals { num: sat_u128(t.num * x_mult.num), den: sat_u128(t.den * x_mult.den), ..t }
        },
    }
}

/// The totals after replaying `steps` from zero chips and zero mult.
pub open spec fn replay(steps: Seq<ScoreStep>) -> Totals
    decreases steps.len(),
{
    if steps.len() == 0 {
        Totals { chips: 0, num: 0, den: 1 }
    } else {
        apply_step(replay(steps.drop_last()), steps.last())
    }
}

/// `num / den` rounded up.
pub open spec fn ceil_div(num: int, den: int) -> int {
    num / den + if num % den == 0 {
        0int
    } else {
        1int
    }
}

/// What a score result must be for the given play.
pub open spec fn is_score_of(
    r: ScoreResult,
    cards: Seq<PlayingCard>,
    levels: Seq<u8>,
    jokers: Seq<Joker>,
    held: Seq<PlayingCard>,
    discards: u8,
) -> bool {
    let steps = score_steps(cards, levels, jokers, held, discards);
    let t = replay(steps);
    &&& r.hand_type == hand_type_of(cards)
    &&& r.scoring_indices@ == scoring_indices_of(cards)
    &&& r.steps@ == steps
    &&& r.total_chips == t.chips
    &&& r.total_mult == sat_u64(ceil_div(t.num as int, t.den as int))
    &&& r.final_score == sat_u64(r.total_chips * r.total_mult)
}

/// Scoring is a function of its inputs: two results that both meet the contract of
/// `calculate_score_with_jokers` for one play are the same result.
pub proof fn lemma_score_is_deterministic(
    r1: ScoreResult,
    r2: ScoreResult,
    cards: Seq<PlayingCard>,
    levels: Seq<u8>,
    jokers: Seq<Joker>,
    held: Seq<PlayingCard>,
    discards: u8,
)
    requires
        is_score_of(r1, cards, levels, jokers, held, discards),
        is_score_of(r2, cards, levels, jokers, held, discards),
    ensures
        r1.hand_type == r2.hand_type,
        r1.scoring_indices@ == r2.scoring_indices@,
        r1.steps@ == r2.steps@,
        r1.total_chips == r2.total_chips,
        r1.total_mult == r2.total_mult,
        r1.final_score == r2.final_score,
{
}

// ---------------------------------------------------------------------------
// Building the log.
// ---------------------------------------------------------------------------

proof fn lemma_take_push<T>(s: Seq<T>, i: int)
    requires
        0 <= i < s.len(),
    ensures
        s.take(i + 1).drop_last() == s.take(i),
        s.take(i + 1).last() == s[i],
{
    assert(s.take(i + 1).drop_last() =~= s.take(i));
}

fn push_card_steps(steps: &mut Vec<ScoreStep>, cards: &[PlayingCard], i: usize)
    ensures
        final(steps)@ == old(steps)@ + card_steps(cards@, i),
{
    if i >= cards.len() {
        assert(old(steps)@ + card_steps(cards@, i) =~= old(steps)@);
        return;
    }
    let ghost start = steps@;
    let card = &cards[i];
    let chips = card.chip_value();
    let mult = card.mult_bonus();
    let x = card.x_mult();
    if chips > 0 {
        steps.push(ScoreStep::CardChips { card_index: i, chips });
    }
    if mult > 0 {
        steps.push(ScoreStep::CardMult { card_index: i, mult });
    }
    if !x.is_identity() {
        steps.push(ScoreStep::CardXMult { card_index: i, x_mult: x });
    }
    proof {
        let c = cards@[i as int];
        let a: Seq<ScoreStep> = if chips > 0 {
            seq![ScoreStep::CardChips { card_index: i, chips }]
        } else {
            seq![]
        };
        let b: Seq<ScoreStep> = if mult > 0 {
            seq![ScoreStep::CardMult { card_index: i, mult }]
        } else {
            seq![]
        };
        let d: Seq<ScoreStep> = if !x.is_one() {
            seq![ScoreStep::CardXMult { card_index: i, x_mult: x }]
        } else {
            seq![]
        };
        assert(card_steps(cards@, i) == a + b + d);
        assert(steps@ =~= start + (a + b + d));
    }
}

fn push_scored_steps(steps: &mut Vec<ScoreStep>, cards: &[PlayingCard], indices: &[usize])
    ensures
        final(steps)@ == old(steps)@ + scored_steps(cards@, indices@, cards@.len() as int),
{
    let ghost start = steps@;
    let mut k: usize = 0;
    while k < cards.len()
        invariant
            k <= cards@.len(),
            steps@ == start + scored_steps(cards@, indices@, k as int),
        decreases cards@.len() - k,
    {
        if contains_index(indices, k) {
            push_card_steps(steps, cards, k);
        }
        proof {
            assert(steps@ =~= start + scored_steps(cards@, indices@, k as int + 1));
        }
        k += 1;
    }
}

fn contains_index(v: &[usize], x: usize) -> (r: bool)
    ensures
        r == v@.contains(x),
{
    let mut k: usize = 0;
    while k < v.len()
        invariant
            k <= v@.len(),
            forall|j: int| 0 <= j < k ==> v@[j] != x,
        decreases v@.len() - k,
    {
        if v[k] == x {
            assert(v@[k as int] == x);
            return true;
        }
        k += 1;
    }
    false
}

fn push_stone_steps(steps: &mut Vec<ScoreStep>, cards: &[PlayingCard], scoring: &[usize])
    ensures
        final(steps)@ == old(steps)@ + stone_steps(cards@, scoring@, cards@.len() as int),
{
    let ghost start = steps@;
    let mut k: usize = 0;
    while k < cards.len()
        invariant
            k <= cards@.len(),
            steps@ == start + stone_steps(cards@, scoring@, k as int),
        decreases cards@.len() - k,
    {
        let card = &cards[k];
        if card.always_scores() && !contains_index(scoring, k) {
            let chips = card.chip_value();
            if chips > 0 {
                steps.push(ScoreStep::CardChips { card_index: k, chips });
            }
        }
        proof {
            assert(steps@ =~= start + stone_steps(cards@, scoring@, k as int + 1));
        }
        k += 1;
    }
}

fn push_repeated(steps: &mut Vec<ScoreStep>, step: ScoreStep, n: usize)
    ensures
        final(steps)@ == old(steps)@ + repeated(step, n as int),
{
    let ghost start = steps@;
    let mut k: usize = 0;
    while k < n
        invariant
            k <= n,
            steps@ == start + repeated(step, k as int),
        decreases n - k,
    {
        steps.push(step);
        proof {
            assert(steps@ =~= start + repeated(step, k as int + 1));
        }
        k += 1;
    }
}

fn push_paired(steps: &mut Vec<ScoreStep>, chips: ScoreStep, mult: ScoreStep, n: usize)
    ensures
        final(steps)@ == old(steps)@ + paired(chips, mult, n as int),
{
    let ghost start = steps@;
    let mut k: usize = 0;
    while k < n
        invariant
            k <= n,
            steps@ == start + paired(chips, mult, k as int),
        decreases n - k,
    {
        steps.push(chips);
        steps.push(mult);
        proof {
            assert(steps@ =~= start + paired(chips, mult, k as int + 1));
        }
        k += 1;
    }
}

fn push_effect_steps(steps: &mut Vec<ScoreStep>, effect: &JokerEffect, j: usize, cards: &[PlayingCard])
    ensures
        final(steps)@ == old(steps)@ + effect_steps(effect@, j, cards@),
{
    match effect {
        JokerEffect::AddChips(c) => {
            if *c > 0 {
                steps.push(ScoreStep::JokerChips { joker_index: j, chips: *c });
            } else {
                assert(old(steps)@ + effect_steps(effect@, j, cards@) =~= old(steps)@);
            }
        },
        JokerEffect::AddMult(m) => {
            if *m > 0 {
                steps.push(ScoreStep::JokerMult { joker_index: j, mult: *m });
            } else {
                assert(old(steps)@ + effect_steps(effect@, j, cards@) =~= old(steps)@);
            }
        },
        JokerEffect::XMult(x) => {
            if !x.is_identity() {
                steps.push(ScoreStep::JokerXMult { joker_index: j, x_mult: *x });
            } else {
                assert(old(steps)@ + effect_steps(effect@, j, cards@) =~= old(steps)@);
            }
        },
        JokerEffect::AddChipsPerCard { card_indices, chips_each } => {
            push_repeated(
                steps,
                ScoreStep::JokerChips { joker_index: j, chips: *chips_each },
                card_indices.len(),
            );
        },
        JokerEffect::AddMultPerCard { card_indices, mult_each } => {
            push_repeated(
                steps,
                ScoreStep::JokerMult { joker_index: j, mult: *mult_each },
                card_indices.len(),
            );
        },
        JokerEffect::AddChipsAndMultPerCard { card_indices, chips_each, mult_each } => {
            push_paired(
                steps,
                ScoreStep::JokerChips { joker_index: j, chips: *chips_each },
                ScoreStep::JokerMult { joker_index: j, mult: *mult_each },
                card_indices.len(),
            );
        },
        JokerEffect::Retrigger { card_indices } => {
            push_scored_steps(steps, cards, card_indices.as_slice());
        },
        JokerEffect::NoEffect => {
            assert(old(steps)@ + effect_steps(effect@, j, cards@) =~= old(steps)@);
        },
    }
}

// ---------------------------------------------------------------------------
// Replaying the log.
// ---------------------------------------------------------------------------

fn add_mult(num: u128, den: u128, mult: u64) -> (r: u128)
    ensures
        r == sat_u128(num + mult * den),
{
    match (mult as u128).checked_mul(den) {
        Some(p) => num.saturating_add(p),
        None => {
            assert(num + mult * den > u128::MAX) by (nonlinear_arith)
                requires
                    mult * den > u128::MAX,
                    num >= 0,
            ;
            u128::MAX
        },
    }
}

fn sat_mul_u128(a: u128, b: u128) -> (r: u128)
    ensures
        r == sat_u128(a * b),
{
    match a.checked_mul(b) {
        Some(p) => p,
        None => u128::MAX,
    }
}

/// Replay a step log into its totals: `(chips, num, den)`.
fn replay_steps(steps: &[ScoreStep]) -> (r: (u64, u128, u128))
    ensures
        r.0 == replay(steps@).chips,
        r.1 == replay(steps@).num,
        r.2 == replay(steps@).den,
        r.2 >= 1,
{
    let mut chips: u64 = 0;
    let mut num: u128 = 0;
    let mut den: u128 = 1;
    let mut k: usize = 0;
    while k < steps.len()
        invariant
            k <= steps@.len(),
            chips == replay(steps@.take(k as int)).chips,
            num == replay(steps@.take(k as int)).num,
            den == replay(steps@.take(k as int)).den,
            den >= 1,
        decreases steps@.len() - k,
    {
        proof {
            lemma_take_push(steps@, k as int);
        }
        match steps[k] {
            ScoreStep::BaseHand { chips: c, mult: m, .. } => {
                chips = chips.saturating_add(c);
                num = add_mult(num, den, m);
            },
            ScoreStep::CardChips { chips: c, .. } | ScoreStep::JokerChips { chips: c, .. } => {
                chips = chips.saturating_add(c);
            },
            ScoreStep::CardMult { mult: m, .. } | ScoreStep::JokerMult { mult: m, .. } => {
                num = add_mult(num, den, m);
            },
            ScoreStep::CardXMult { x_mult: x, .. } | ScoreStep::JokerXMult { x_mult: x, .. } => {
                if x.den != 0 {
                    num = sat_mul_u128(num, x.num as u128);
                    assert(den * x.den >= den) by (nonlinear_arith)
                        requires
                            x.den >= 1,
                            den >= 1,
                    ;
                    den = sat_mul_u128(den, x.den as u128);
                }
            },
        }
        k += 1;
    }
    proof {
        assert(steps@.take(steps@.len() as int) =~= steps@);
    }
    (chips, num, den)
}

/// Final totals of a step log: chips, mult rounded up, and their product.
fn totals_of(steps: &[ScoreStep]) -> (r: (u64, u64, u64))
    ensures
        r.0 == replay(steps@).chips,
        r.1 == sat_u64(ceil_div(replay(steps@).num as int, replay(steps@).den as int)),
        r.2 == sat_u64(r.0 * r.1),
{
    let (chips, num, den) = replay_steps(steps);
    let q = num / den;
    let c: u128 = if num % den == 0 { q } else {
        assert(q < u128::MAX) by (nonlinear_arith)
            requires
                q == num / den,
                num % den != 0,
                den >= 1,
                num <= u128::MAX,
        ;
        q + 1
    };
    let mult: u64 = if c > u64::MAX as u128 { u64::MAX } else { c as u64 };
    let score: u64 = match chips.checked_mul(mult) {
        Some(p) => p,
        None => u64::MAX,
    };
    (chips, mult, score)
}

/// Score a play with the jokers in slot order, the cards still held in hand and the
/// discards left: the base hand, the scoring cards, the always-scoring cards outside the
/// hand, then each joker's effect; the mult is rounded up at the end.
pub fn calculate_score_with_jokers(
    played_cards: &[PlayingCard],
    hand_levels: &HandLevels,
    jokers: &[Joker],
    held_cards: &[PlayingCard],
    discards_remaining: u8,
) -> (r: ScoreResult)
    ensures
        is_score_of(r, played_cards@, hand_levels@, jokers@, held_cards@, discards_remaining),
{
    let hand_result = detect_hand(played_cards);
    let hand_type = hand_result.hand_type;
    let scoring_indices = hand_result.scoring_indices;

    let base_chips = hand_levels.chips_for(&hand_type);
    let base_mult = hand_levels.mult_for(&hand_type);
    let mut steps: Vec<ScoreStep> = Vec::new();
    steps.push(ScoreStep::BaseHand { hand_type, chips: base_chips, mult: base_mult });

    push_scored_steps(&mut steps, played_cards, scoring_indices.as_slice());
    push_stone_steps(&mut steps, played_cards, scoring_indices.as_slice());

    let ghost before_jokers = steps@;
    let ctx = JokerContext {
        played_cards,
        scoring_indices: scoring_indices.as_slice(),
        hand_type,
        held_cards,
        discards_remaining,
        num_played: played_cards.len(),
    };
    let mut j: usize = 0;
    while j < jokers.len()
        invariant
            j <= jokers@.len(),
            ctx.played_cards@ == played_cards@,
            ctx.scoring_indices@ == scoring_indices_of(played_cards@),
            ctx.hand_type == hand_type_of(played_cards@),
            ctx.held_cards@ == held_cards@,
            ctx.discards_remaining == discards_remaining,
            ctx.num_played == played_cards@.len(),
            steps@ == before_jokers + joker_steps(
                played_cards@,
                jokers@,
                held_cards@,
                discards_remaining,
                j as int,
            ),
        decreases jokers@.len() - j,
    {
        let next = if j + 1 < jokers.len() {
            Some(jokers[j + 1].joker_type)
        } else {
            None
        };
        let effect = evaluate_joker(&jokers[j], &ctx, next);
        push_effect_steps(&mut steps, &effect, j, played_cards);
        proof {
            assert(steps@ =~= before_jokers + joker_steps(
                played_cards@,
                jokers@,
                held_cards@,
                discards_remaining,
                j as int + 1,
            ));
        }
        j += 1;
    }
    proof {
        assert(steps@ =~= score_steps(
            played_cards@,
            hand_levels@,
            jokers@,
            held_cards@,
            discards_remaining,
        ));
    }
    let (total_chips, total_mult, final_score) = totals_of(steps.as_slice());
    ScoreResult { hand_type, scoring_indices, steps, total_chips, total_mult, final_score }
}

/// Calculate the score for a set of played cards.
/// This is the core scoring function without joker effects.
pub fn calculate_score(played_cards: &[PlayingCard], hand_levels: &HandLevels) -> (r: ScoreResult)
    ensures
        is_score_of(r, played_cards@, hand_levels@, seq![], seq![], 0),
{
    let no_jokers: Vec<Joker> = Vec::new();
    let no_held: Vec<PlayingCard> = Vec::new();
    calculate_score_with_jokers(played_cards, hand_levels, no_jokers.as_slice(), no_held.as_slice(), 0)
}

} // verus!
