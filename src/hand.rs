use vstd::prelude::*;

use crate::card::{PlayingCard, Rank, Suit};

verus! {

/// All recognized poker hands, ordered from worst to best
#[derive(Debug, Clone, Copy, PartialEq, Eq, PartialOrd, Ord, Hash, Structural)]
pub enum PokerHand {
    HighCard,
    Pair,
    TwoPair,
    ThreeOfAKind,
    Straight,
    Flush,
    FullHouse,
    FourOfAKind,
    StraightFlush,
    RoyalFlush,
    FiveOfAKind,
    FlushHouse,
    FlushFive,
}

impl PokerHand {
    /// Position of the hand in the ranking, 0 for HighCard up to 12 for FlushFive.
    pub open spec fn spec_strength(self) -> u8 {
        match self {
            PokerHand::HighCard => 0,
            PokerHand::Pair => 1,
            PokerHand::TwoPair => 2,
            PokerHand::ThreeOfAKind => 3,
            PokerHand::Straight => 4,
            PokerHand::Flush => 5,
            PokerHand::FullHouse => 6,
            PokerHand::FourOfAKind => 7,
            PokerHand::StraightFlush => 8,
            PokerHand::RoyalFlush => 9,
            PokerHand::FiveOfAKind => 10,
            PokerHand::FlushHouse => 11,
            PokerHand::FlushFive => 12,
        }
    }

    pub fn strength(&self) -> (r: u8)
        ensures
            r == self.spec_strength(),
            r < 13,
    {
        match self {
            PokerHand::HighCard => 0,
            PokerHand::Pair => 1,
            PokerHand::TwoPair => 2,
            PokerHand::ThreeOfAKind => 3,
            PokerHand::Straight => 4,
            PokerHand::Flush => 5,
            PokerHand::FullHouse => 6,
            PokerHand::FourOfAKind => 7,
            PokerHand::StraightFlush => 8,
            PokerHand::RoyalFlush => 9,
            PokerHand::FiveOfAKind => 10,
            PokerHand::FlushHouse => 11,
            PokerHand::FlushFive => 12,
        }
    }

    /// Whether this hand ranks at least as high as `other`.
    pub fn at_least(&self, other: PokerHand) -> (r: bool)
        ensures
            r == (self.spec_strength() >= other.spec_strength()),
    {
        self.strength() >= other.strength()
    }

    pub open spec fn spec_base_chips(self) -> u64 {
        match self {
            PokerHand::HighCard => 5,
            PokerHand::Pair => 10,
            PokerHand::TwoPair => 20,
            PokerHand::ThreeOfAKind => 30,
            PokerHand::Straight => 30,
            PokerHand::Flush => 35,
            PokerHand::FullHouse => 40,
            PokerHand::FourOfAKind => 60,
            PokerHand::StraightFlush => 100,
            PokerHand::RoyalFlush => 100,
            PokerHand::FiveOfAKind => 120,
            PokerHand::FlushHouse => 140,
            PokerHand::FlushFive => 160,
        }
    }

    /// Base chips for this hand at level 1
    pub fn base_chips(&self) -> (r: u64)
        ensures
            r == self.spec_base_chips(),
            r <= 160,
    {
        match self {
            PokerHand::HighCard => 5,
            PokerHand::Pair => 10,
            PokerHand::TwoPair => 20,
            PokerHand::ThreeOfAKind => 30,
            PokerHand::Straight => 30,
            PokerHand::Flush => 35,
            PokerHand::FullHouse => 40,
            PokerHand::FourOfAKind => 60,
            PokerHand::StraightFlush => 100,
            PokerHand::RoyalFlush => 100,
            PokerHand::FiveOfAKind => 120,
            PokerHand::FlushHouse => 140,
            PokerHand::FlushFive => 160,
        }
    }

    pub open spec fn spec_base_mult(self) -> u64 {
        match self {
            PokerHand::HighCard => 1,
            PokerHand::Pair => 2,
            PokerHand::TwoPair => 2,
            PokerHand::ThreeOfAKind => 3,
            PokerHand::Straight => 4,
            PokerHand::Flush => 4,
            PokerHand::FullHouse => 4,
            PokerHand::FourOfAKind => 7,
            PokerHand::StraightFlush => 8,
            PokerHand::RoyalFlush => 8,
            PokerHand::FiveOfAKind => 12,
            PokerHand::FlushHouse => 14,
            PokerHand::FlushFive => 16,
        }
    }

    /// Base mult for this hand at level 1
    pub fn base_mult(&self) -> (r: u64)
        ensures
            r == self.spec_base_mult(),
            r <= 16,
    {
        match self {
            PokerHand::HighCard => 1,
            PokerHand::Pair => 2,
            PokerHand::TwoPair => 2,
            PokerHand::ThreeOfAKind => 3,
            PokerHand::Straight => 4,
            PokerHand::Flush => 4,
            PokerHand::FullHouse => 4,
            PokerHand::FourOfAKind => 7,
            PokerHand::StraightFlush => 8,
            PokerHand::RoyalFlush => 8,
            PokerHand::FiveOfAKind => 12,
            PokerHand::FlushHouse => 14,
            PokerHand::FlushFive => 16,
        }
    }

    pub open spec fn spec_level_up_chips(self) -> u64 {
        match self {
            PokerHand::HighCard => 10,
            PokerHand::Pair => 15,
            PokerHand::TwoPair => 20,
            PokerHand::ThreeOfAKind => 20,
            PokerHand::Straight => 30,
            PokerHand::Flush => 15,
            PokerHand::FullHouse => 25,
            PokerHand::FourOfAKind => 30,
            PokerHand::StraightFlush | PokerHand::RoyalFlush => 40,
            PokerHand::FiveOfAKind => 35,
            PokerHand::FlushHouse => 40,
            PokerHand::FlushFive => 50,
        }
    }

    /// Chips gained per level up
    pub fn level_up_chips(&self) -> (r: u64)
        ensures
            r == self.spec_level_up_chips(),
            r <= 50,
    {
        match self {
            PokerHand::HighCard => 10,
            PokerHand::Pair => 15,
            PokerHand::TwoPair => 20,
            PokerHand::ThreeOfAKind => 20,
            PokerHand::Straight => 30,
            PokerHand::Flush => 15,
            PokerHand::FullHouse => 25,
            PokerHand::FourOfAKind => 30,
            PokerHand::StraightFlush | PokerHand::RoyalFlush => 40,
            PokerHand::FiveOfAKind => 35,
            PokerHand::FlushHouse => 40,
            PokerHand::FlushFive => 50,
        }
    }

    pub open spec fn spec_level_up_mult(self) -> u64 {
        match self {
            PokerHand::HighCard => 1,
            PokerHand::Pair => 1,
            PokerHand::TwoPair => 1,
            PokerHand::ThreeOfAKind => 2,
            PokerHand::Straight => 3,
            PokerHand::Flush => 2,
            PokerHand::FullHouse => 2,
            PokerHand::FourOfAKind => 3,
            PokerHand::StraightFlush | PokerHand::RoyalFlush => 4,
            PokerHand::FiveOfAKind => 3,
            PokerHand::FlushHouse => 4,
            PokerHand::FlushFive => 3,
        }
    }

    /// Mult gained per level up
    pub fn level_up_mult(&self) -> (r: u64)
        ensures
            r == self.spec_level_up_mult(),
            r <= 4,
    {
        match self {
            PokerHand::HighCard => 1,
            PokerHand::Pair => 1,
            PokerHand::TwoPair => 1,
            PokerHand::ThreeOfAKind => 2,
            PokerHand::Straight => 3,
            PokerHand::Flush => 2,
            PokerHand::FullHouse => 2,
            PokerHand::FourOfAKind => 3,
            PokerHand::StraightFlush | PokerHand::RoyalFlush => 4,
            PokerHand::FiveOfAKind => 3,
            PokerHand::FlushHouse => 4,
            PokerHand::FlushFive => 3,
        }
    }

    /// The hand whose strength is `s` (0..=12).
    pub open spec fn spec_from_strength(s: int) -> PokerHand {
        if s <= 0 {
            PokerHand::HighCard
        } else if s == 1 {
            PokerHand::Pair
        } else if s == 2 {
            PokerHand::TwoPair
        } else if s == 3 {
            PokerHand::ThreeOfAKind
        } else if s == 4 {
            PokerHand::Straight
        } else if s == 5 {
            PokerHand::Flush
        } else if s == 6 {
            PokerHand::FullHouse
        } else if s == 7 {
            PokerHand::FourOfAKind
        } else if s == 8 {
            PokerHand::StraightFlush
        } else if s == 9 {
            PokerHand::RoyalFlush
        } else if s == 10 {
            PokerHand::FiveOfAKind
        } else if s == 11 {
            PokerHand::FlushHouse
        } else {
            PokerHand::FlushFive
        }
    }

    /// All poker hand variants, from worst to best.
    pub fn all() -> (r: Vec<PokerHand>)
        ensures
            r@.len() == 13,
            forall|i: int| 0 <= i < 13 ==> (#[trigger] r@[i]).spec_strength() == i,
    {
        vec![
            PokerHand::HighCard,
            PokerHand::Pair,
            PokerHand::TwoPair,
            PokerHand::ThreeOfAKind,
            PokerHand::Straight,
            PokerHand::Flush,
            PokerHand::FullHouse,
            PokerHand::FourOfAKind,
            PokerHand::StraightFlush,
            PokerHand::RoyalFlush,
            PokerHand::FiveOfAKind,
            PokerHand::FlushHouse,
            PokerHand::FlushFive,
        ]
    }

    pub open spec fn spec_name(self) -> Seq<char> {
        match self {
            PokerHand::HighCard => "High Card"@,
            PokerHand::Pair => "Pair"@,
            PokerHand::TwoPair => "Two Pair"@,
            PokerHand::ThreeOfAKind => "Three of a Kind"@,
            PokerHand::Straight => "Straight"@,
            PokerHand::Flush => "Flush"@,
            PokerHand::FullHouse => "Full House"@,
            PokerHand::FourOfAKind => "Four of a Kind"@,
            PokerHand::StraightFlush => "Straight Flush"@,
            PokerHand::RoyalFlush => "Royal Flush"@,
            PokerHand::FiveOfAKind => "Five of a Kind"@,
            PokerHand::FlushHouse => "Flush House"@,
            PokerHand::FlushFive => "Flush Five"@,
        }
    }

    /// Display name of the hand.
    pub fn name(&self) -> (r: &'static str)
        ensures
            r@ == self.spec_name(),
    {
        match self {
            PokerHand::HighCard => "High Card",
            PokerHand::Pair => "Pair",
            PokerHand::TwoPair => "Two Pair",
            PokerHand::ThreeOfAKind => "Three of a Kind",
            PokerHand::Straight => "Straight",
            PokerHand::Flush => "Flush",
            PokerHand::FullHouse => "Full House",
            PokerHand::FourOfAKind => "Four of a Kind",
            PokerHand::StraightFlush => "Straight Flush",
            PokerHand::RoyalFlush => "Royal Flush",
            PokerHand::FiveOfAKind => "Five of a Kind",
            PokerHand::FlushHouse => "Flush House",
            PokerHand::FlushFive => "Flush Five",
        }
    }
}

/// Result of detecting a poker hand from a set of played cards
#[derive(Debug, Clone)]
pub struct HandResult {
    pub hand_type: PokerHand,
    /// Indices into the played cards that are "scoring" (part of the hand)
    pub scoring_indices: Vec<usize>,
}

// ---------------------------------------------------------------------------
// The model of hand detection.
// ---------------------------------------------------------------------------

/// Number of cards whose rank has value `v`.
pub open spec fn rank_count(cards: Seq<PlayingCard>, v: int) -> nat
    decreases cards.len(),
{
    if cards.len() == 0 {
        0
    } else {
        rank_count(cards.drop_last(), v) + if cards.last().rank.spec_value() == v {
            1nat
        } else {
            0nat
        }
    }
}

/// The best rank-group among the rank values `2..=v`, leaving out `excl`: the one with the
/// most cards, the higher rank winning ties; 0 when there is none.
pub open spec fn best_group(cards: Seq<PlayingCard>, excl: int, v: int) -> int
    decreases v,
{
    if v < 2 {
        0
    } else {
        let b = best_group(cards, excl, v - 1);
        if v != excl && rank_count(cards, v) > 0 && rank_count(cards, v) >= rank_count(cards, b) {
            v
        } else {
            b
        }
    }
}

/// Rank value of the largest group.
pub open spec fn first_group(cards: Seq<PlayingCard>) -> int {
    best_group(cards, 0, 14)
}

/// Rank value of the second largest group (0 when all cards share one rank).
pub open spec fn second_group(cards: Seq<PlayingCard>) -> int {
    best_group(cards, first_group(cards), 14)
}

/// Number of distinct ranks among the values `2..=v`.
pub open spec fn distinct_ranks(cards: Seq<PlayingCard>, v: int) -> nat
    decreases v,
{
    if v < 2 {
        0
    } else {
        distinct_ranks(cards, v - 1) + if rank_count(cards, v) > 0 {
            1nat
        } else {
            0nat
        }
    }
}

/// Every card counts as `suit`.
pub open spec fn all_count_as(cards: Seq<PlayingCard>, suit: Suit) -> bool {
    forall|i: int| 0 <= i < cards.len() ==> (#[trigger] cards[i]).spec_counts_as(suit)
}

/// Five cards that all share one suit, wild cards counting as any suit.
pub open spec fn is_flush(cards: Seq<PlayingCard>) -> bool {
    cards.len() == 5 && (all_count_as(cards, Suit::Spades) || all_count_as(cards, Suit::Hearts)
        || all_count_as(cards, Suit::Diamonds) || all_count_as(cards, Suit::Clubs))
}

/// One card of each rank value `lo..lo+5`.
pub open spec fn run_from(cards: Seq<PlayingCard>, lo: int) -> bool {
    forall|v: int| lo <= v < lo + 5 ==> rank_count(cards, v) == 1
}

/// One card each of Ace, Two, Three, Four and Five.
pub open spec fn ace_low_run(cards: Seq<PlayingCard>) -> bool {
    rank_count(cards, 14) == 1 && forall|v: int| 2 <= v <= 5 ==> rank_count(cards, v) == 1
}

/// Five cards of consecutive ranks, the Ace also counting low (A-2-3-4-5).
pub open spec fn is_straight(cards: Seq<PlayingCard>) -> bool {
    cards.len() == 5 && ((exists|lo: int| 2 <= lo <= 10 && run_from(cards, lo)) || ace_low_run(
        cards,
    ))
}

/// Ten, Jack, Queen, King and Ace.
pub open spec fn is_royal(cards: Seq<PlayingCard>) -> bool {
    cards.len() == 5 && run_from(cards, 10)
}

/// Indices `i < n`, ascending, of the cards of rank value `v`.
pub open spec fn indices_of_rank(cards: Seq<PlayingCard>, v: int, n: int) -> Seq<usize>
    decreases n,
{
    if n <= 0 {
        seq![]
    } else if cards[n - 1].rank.spec_value() == v {
        indices_of_rank(cards, v, n - 1).push((n - 1) as usize)
    } else {
        indices_of_rank(cards, v, n - 1)
    }
}

/// The indices `0..n` in order.
pub open spec fn all_indices(n: int) -> Seq<usize> {
    Seq::new(n as nat, |i: int| i as usize)
}

/// Index of the highest-ranked card among the first `n`, the last one winning ties.
pub open spec fn high_index(cards: Seq<PlayingCard>, n: int) -> int
    decreases n,
{
    if n <= 1 {
        0
    } else {
        let b = high_index(cards, n - 1);
        if cards[n - 1].rank.spec_value() >= cards[b].rank.spec_value() {
            n - 1
        } else {
            b
        }
    }
}

/// The hand category of a set of played cards.
pub open spec fn hand_type_of(cards: Seq<PlayingCard>) -> PokerHand {
    let n = cards.len();
    let s1 = rank_count(cards, first_group(cards));
    let s2 = rank_count(cards, second_group(cards));
    let groups = distinct_ranks(cards, 14);
    let flush = is_flush(cards);
    let straight = is_straight(cards);
    if n == 0 {
        PokerHand::HighCard
    } else if n == 5 && s1 == 5 && flush {
        PokerHand::FlushFive
    } else if s1 == 5 {
        PokerHand::FiveOfAKind
    } else if n == 5 && groups == 2 && s1 == 3 && s2 == 2 && flush {
        PokerHand::FlushHouse
    } else if straight && flush && is_royal(cards) {
        PokerHand::RoyalFlush
    } else if straight && flush {
        PokerHand::StraightFlush
    } else if s1 >= 4 {
        PokerHand::FourOfAKind
    } else if groups >= 2 && s1 == 3 && s2 >= 2 {
        PokerHand::FullHouse
    } else if flush {
        PokerHand::Flush
    } else if straight {
        PokerHand::Straight
    } else if s1 >= 3 {
        PokerHand::ThreeOfAKind
    } else if groups >= 2 && s1 >= 2 && s2 >= 2 {
        PokerHand::TwoPair
    } else if s1 >= 2 {
        PokerHand::Pair
    } else {
        PokerHand::HighCard
    }
}

/// The indices of the cards that score for `hand_type_of(cards)`.
pub open spec fn scoring_indices_of(cards: Seq<PlayingCard>) -> Seq<usize> {
    let n = cards.len() as int;
    let g1 = indices_of_rank(cards, first_group(cards), n);
    let g2 = indices_of_rank(cards, second_group(cards), n);
    match hand_type_of(cards) {
        PokerHand::HighCard => if n == 0 {
            seq![]
        } else {
            seq![high_index(cards, n) as usize]
        },
        PokerHand::FourOfAKind | PokerHand::ThreeOfAKind | PokerHand::Pair => g1,
        PokerHand::FullHouse | PokerHand::TwoPair => g1 + g2,
        _ => all_indices(n),
    }
}

// ---------------------------------------------------------------------------
// Detection.
// ---------------------------------------------------------------------------

proof fn lemma_rank_count_bound(cards: Seq<PlayingCard>, v: int)
    ensures
        rank_count(cards, v) <= cards.len(),
    decreases cards.len(),
{
    if cards.len() > 0 {
        lemma_rank_count_bound(cards.drop_last(), v);
    }
}

proof fn lemma_rank_count_none(cards: Seq<PlayingCard>, v: int)
    requires
        v < 2 || v > 14,
    ensures
        rank_count(cards, v) == 0,
    decreases cards.len(),
{
    if cards.len() > 0 {
        lemma_rank_count_none(cards.drop_last(), v);
    }
}

/// `counts[v]` is the number of cards of rank value `v`, for every `v < 15`.
fn count_ranks(cards: &[PlayingCard]) -> (counts: Vec<usize>)
    ensures
        counts@.len() == 15,
        forall|v: int| 0 <= v < 15 ==> counts@[v] == rank_count(cards@, v),
{
    let mut counts: Vec<usize> = vec![0, 0, 0, 0, 0, 0, 0, 0, 0, 0, 0, 0, 0, 0, 0];
    let n = cards.len();
    let mut i: usize = 0;
    while i < n
        invariant
            n == cards@.len(),
            i <= n,
            counts@.len() == 15,
            forall|v: int| 0 <= v < 15 ==> counts@[v] == rank_count(cards@.take(i as int), v),
        decreases n - i,
    {
        let v = cards[i].rank.value() as usize;
        proof {
            assert(cards@.take(i as int + 1).drop_last() =~= cards@.take(i as int));
            lemma_rank_count_bound(cards@.take(i as int), v as int);
        }
        let c = counts[v];
        counts.set(v, c + 1);
        i += 1;
    }
    proof {
        assert(cards@.take(n as int) =~= cards@);
    }
    counts
}

/// Exec form of `best_group` over a table of rank counts.
fn best_group_of(counts: &Vec<usize>, excl: usize, Ghost(cards): Ghost<Seq<PlayingCard>>) -> (r: usize)
    requires
        counts@.len() == 15,
        forall|v: int| 0 <= v < 15 ==> counts@[v] == rank_count(cards, v),
    ensures
        r == best_group(cards, excl as int, 14),
        r == 0 || 2 <= r <= 14,
{
    let mut b: usize = 0;
    let mut v: usize = 2;
    proof {
        lemma_rank_count_none(cards, 0);
    }
    while v <= 14
        invariant
            2 <= v <= 15,
            counts@.len() == 15,
            forall|w: int| 0 <= w < 15 ==> counts@[w] == rank_count(cards, w),
            b == best_group(cards, excl as int, v - 1),
            b == 0 || 2 <= b < v,
        decreases 15 - v,
    {
        if v != excl && counts[v] > 0 && counts[v] >= counts[b] {
            b = v;
        }
        v += 1;
    }
    b
}

/// Number of distinct ranks in a table of rank counts.
fn distinct_of(counts: &Vec<usize>, Ghost(cards): Ghost<Seq<PlayingCard>>) -> (r: usize)
    requires
        counts@.len() == 15,
        forall|v: int| 0 <= v < 15 ==> counts@[v] == rank_count(cards, v),
    ensures
        r == distinct_ranks(cards, 14),
{
    let mut d: usize = 0;
    let mut v: usize = 2;
    while v <= 14
        invariant
            2 <= v <= 15,
            counts@.len() == 15,
            forall|w: int| 0 <= w < 15 ==> counts@[w] == rank_count(cards, w),
            d == distinct_ranks(cards, v - 1),
            d < v,
        decreases 15 - v,
    {
        if counts[v] > 0 {
            d += 1;
        }
        v += 1;
    }
    d
}

fn all_count_as_exec(cards: &[PlayingCard], suit: Suit) -> (r: bool)
    ensures
        r == all_count_as(cards@, suit),
{
    let mut i: usize = 0;
    while i < cards.len()
        invariant
            i <= cards@.len(),
            forall|j: int| 0 <= j < i ==> (#[trigger] cards@[j]).spec_counts_as(suit),
        decreases cards@.len() - i,
    {
        if !cards[i].counts_as(suit) {
            return false;
        }
        i += 1;
    }
    true
}

fn check_flush(cards: &[PlayingCard]) -> (r: bool)
    ensures
        r == is_flush(cards@),
{
    cards.len() == 5 && (all_count_as_exec(cards, Suit::Spades) || all_count_as_exec(
        cards,
        Suit::Hearts,
    ) || all_count_as_exec(cards, Suit::Diamonds) || all_count_as_exec(cards, Suit::Clubs))
}

fn run_from_exec(counts: &Vec<usize>, lo: usize, Ghost(cards): Ghost<Seq<PlayingCard>>) -> (r: bool)
    requires
        counts@.len() == 15,
        forall|v: int| 0 <= v < 15 ==> counts@[v] == rank_count(cards, v),
        1 <= lo <= 10,
    ensures
        r == run_from(cards, lo as int),
{
    proof {
        assert(counts@[lo as int] == rank_count(cards, lo as int));
        assert(counts@[lo + 1] == rank_count(cards, lo + 1));
        assert(counts@[lo + 2] == rank_count(cards, lo + 2));
        assert(counts@[lo + 3] == rank_count(cards, lo + 3));
        assert(counts@[lo + 4] == rank_count(cards, lo + 4));
    }
    counts[lo] == 1 && counts[lo + 1] == 1 && counts[lo + 2] == 1 && counts[lo + 3] == 1
        && counts[lo + 4] == 1
}

/// Check if cards form a straight (5 consecutive ranks).
/// Handles Ace-low (A-2-3-4-5) and Ace-high (10-J-Q-K-A).
fn check_straight(counts: &Vec<usize>, n: usize, Ghost(cards): Ghost<Seq<PlayingCard>>) -> (r: bool)
    requires
        counts@.len() == 15,
        forall|v: int| 0 <= v < 15 ==> counts@[v] == rank_count(cards, v),
        n == cards.len(),
    ensures
        r == is_straight(cards),
{
    if n != 5 {
        return false;
    }
    proof {
        assert(counts@[14] == rank_count(cards, 14));
        assert(counts@[2] == rank_count(cards, 2));
        assert(counts@[3] == rank_count(cards, 3));
        assert(counts@[4] == rank_count(cards, 4));
        assert(counts@[5] == rank_count(cards, 5));
    }
    if counts[14] == 1 && counts[2] == 1 && counts[3] == 1 && counts[4] == 1 && counts[5] == 1 {
        return true;
    }
    let mut lo: usize = 2;
    while lo <= 10
        invariant
            2 <= lo <= 11,
            counts@.len() == 15,
            forall|v: int| 0 <= v < 15 ==> counts@[v] == rank_count(cards, v),
            forall|l: int| 2 <= l < lo ==> !run_from(cards, l),
            !ace_low_run(cards),
            cards.len() == 5,
        decreases 11 - lo,
    {
        if run_from_exec(counts, lo, Ghost(cards)) {
            assert(run_from(cards, lo as int));
            return true;
        }
        lo += 1;
    }
    false
}

/// The indices, ascending, of the cards of rank value `v`.
fn indices_of_rank_exec(cards: &[PlayingCard], v: usize) -> (r: Vec<usize>)
    ensures
        r@ == indices_of_rank(cards@, v as int, cards@.len() as int),
{
    let mut out: Vec<usize> = Vec::new();
    let mut i: usize = 0;
    while i < cards.len()
        invariant
            i <= cards@.len(),
            out@ == indices_of_rank(cards@, v as int, i as int),
        decreases cards@.len() - i,
    {
        if cards[i].rank.value() as usize == v {
            out.push(i);
        }
        i += 1;
    }
    out
}

fn all_indices_exec(n: usize) -> (r: Vec<usize>)
    ensures
        r@ == all_indices(n as int),
{
    let mut out: Vec<usize> = Vec::new();
    let mut i: usize = 0;
    while i < n
        invariant
            i <= n,
            out@ == all_indices(i as int),
        decreases n - i,
    {
        out.push(i);
        proof {
            assert(out@ =~= all_indices(i as int + 1));
        }
        i += 1;
    }
    out
}

fn high_index_exec(cards: &[PlayingCard]) -> (r: usize)
    requires
        cards@.len() > 0,
    ensures
        r == high_index(cards@, cards@.len() as int),
        r < cards@.len(),
{
    let mut b: usize = 0;
    let mut i: usize = 1;
    while i < cards.len()
        invariant
            1 <= i <= cards@.len(),
            b == high_index(cards@, i as int),
            b < i,
        decreases cards@.len() - i,
    {
        if cards[i].rank.value() >= cards[b].rank.value() {
            b = i;
        }
        i += 1;
    }
    b
}

/// Detect the best poker hand from a set of played cards (up to 5).
/// Returns the hand type and which card indices contribute to scoring.
pub fn detect_hand(cards: &[PlayingCard]) -> (r: HandResult)
    ensures
        r.hand_type == hand_type_of(cards@),
        r.scoring_indices@ == scoring_indices_of(cards@),
{
    let n = cards.len();
    if n == 0 {
        return HandResult { hand_type: PokerHand::HighCard, scoring_indices: Vec::new() };
    }
    let counts = count_ranks(cards);
    let g1 = best_group_of(&counts, 0, Ghost(cards@));
    let g2 = best_group_of(&counts, g1, Ghost(cards@));
    let s1 = counts[g1];
    let s2 = counts[g2];
    let groups = distinct_of(&counts, Ghost(cards@));
    let flush = check_flush(cards);
    let straight = check_straight(&counts, n, Ghost(cards@));

    let hand_type = if n == 5 && s1 == 5 && flush {
        PokerHand::FlushFive
    } else if s1 == 5 {
        PokerHand::FiveOfAKind
    } else if n == 5 && groups == 2 && s1 == 3 && s2 == 2 && flush {
        PokerHand::FlushHouse
    } else if straight && flush && run_from_exec(&counts, 10, Ghost(cards@)) {
        PokerHand::RoyalFlush
    } else if straight && flush {
        PokerHand::StraightFlush
    } else if s1 >= 4 {
        PokerHand::FourOfAKind
    } else if groups >= 2 && s1 == 3 && s2 >= 2 {
        PokerHand::FullHouse
    } else if flush {
        PokerHand::Flush
    } else if straight {
        PokerHand::Straight
    } else if s1 >= 3 {
        PokerHand::ThreeOfAKind
    } else if groups >= 2 && s1 >= 2 && s2 >= 2 {
        PokerHand::TwoPair
    } else if s1 >= 2 {
        PokerHand::Pair
    } else {
        PokerHand::HighCard
    };
    let scoring_indices = match hand_type {
        PokerHand::HighCard => {
            let b = high_index_exec(cards);
            vec![b]
        },
        PokerHand::FourOfAKind | PokerHand::ThreeOfAKind | PokerHand::Pair => {
            indices_of_rank_exec(cards, g1)
        },
        PokerHand::FullHouse | PokerHand::TwoPair => {
            let mut a = indices_of_rank_exec(cards, g1);
            let mut b = indices_of_rank_exec(cards, g2);
            a.append(&mut b);
            a
        },
        _ => all_indices_exec(n),
    };
    HandResult { hand_type, scoring_indices }
}

// ---------------------------------------------------------------------------
// Detection agrees with the standard ranking.
// ---------------------------------------------------------------------------

/// Some rank appears at least `k` times.
pub open spec fn has_kind(cards: Seq<PlayingCard>, k: nat) -> bool {
    exists|v: int| 2 <= v <= 14 && #[trigger] rank_count(cards, v) >= k
}

/// Two different ranks appear at least `a` and at least `b` times.
pub open spec fn has_groups(cards: Seq<PlayingCard>, a: nat, b: nat) -> bool {
    exists|v: int, w: int|
        2 <= v <= 14 && 2 <= w <= 14 && v != w && #[trigger] rank_count(cards, v) >= a
            && #[trigger] rank_count(cards, w) >= b
}

/// Whether the cards contain the hand `h` in the usual poker sense.
pub open spec fn contains_hand(cards: Seq<PlayingCard>, h: PokerHand) -> bool {
    match h {
        PokerHand::HighCard => true,
        PokerHand::Pair => has_kind(cards, 2),
        PokerHand::TwoPair => has_groups(cards, 2, 2),
        PokerHand::ThreeOfAKind => has_kind(cards, 3),
        PokerHand::Straight => is_straight(cards),
        PokerHand::Flush => is_flush(cards),
        PokerHand::FullHouse => has_groups(cards, 3, 2),
        PokerHand::FourOfAKind => has_kind(cards, 4),
        PokerHand::StraightFlush => is_straight(cards) && is_flush(cards),
        PokerHand::RoyalFlush => is_straight(cards) && is_flush(cards) && is_royal(cards),
        PokerHand::FiveOfAKind => has_kind(cards, 5),
        PokerHand::FlushHouse => has_groups(cards, 3, 2) && is_flush(cards),
        PokerHand::FlushFive => has_kind(cards, 5) && is_flush(cards),
    }
}

/// Number of cards whose rank value lies in `2..=v`.
pub open spec fn rank_total(cards: Seq<PlayingCard>, v: int) -> nat
    decreases v,
{
    if v < 2 {
        0
    } else {
        rank_total(cards, v - 1) + rank_count(cards, v)
    }
}

proof fn lemma_best_group(cards: Seq<PlayingCard>, excl: int, v: int)
    ensures
        ({
            let b = best_group(cards, excl, v);
            &&& b == 0 || (2 <= b <= v && b != excl)
            &&& forall|w: int|
                2 <= w <= v && w != excl ==> rank_count(cards, b) >= #[trigger] rank_count(cards, w)
        }),
    decreases v,
{
    lemma_rank_count_none(cards, 0);
    if v >= 2 {
        lemma_best_group(cards, excl, v - 1);
    }
}

proof fn lemma_rank_total_push(cards: Seq<PlayingCard>, v: int)
    requires
        cards.len() > 0,
    ensures
        rank_total(cards, v) == rank_total(cards.drop_last(), v) + if 2
            <= cards.last().rank.spec_value() <= v {
            1nat
        } else {
            0nat
        },
    decreases v,
{
    if v >= 2 {
        lemma_rank_total_push(cards, v - 1);
    }
}

proof fn lemma_rank_total_is_len(cards: Seq<PlayingCard>)
    ensures
        rank_total(cards, 14) == cards.len(),
    decreases cards.len(),
{
    if cards.len() == 0 {
        lemma_rank_total_empty(cards, 14);
    } else {
        lemma_rank_total_is_len(cards.drop_last());
        lemma_rank_total_push(cards, 14);
    }
}

proof fn lemma_rank_total_empty(cards: Seq<PlayingCard>, v: int)
    requires
        cards.len() == 0,
    ensures
        rank_total(cards, v) == 0,
    decreases v,
{
    if v >= 2 {
        lemma_rank_total_empty(cards, v - 1);
    }
}

/// Three different rank values together hold no more cards than the total.
proof fn lemma_total_bounds(cards: Seq<PlayingCard>, a: int, b: int, c: int, v: int)
    requires
        a != b,
        b != c,
        a != c,
    ensures
        rank_total(cards, v) >= (if 2 <= a <= v {
            rank_count(cards, a)
        } else {
            0nat
        }) + (if 2 <= b <= v {
            rank_count(cards, b)
        } else {
            0nat
        }) + (if 2 <= c <= v {
            rank_count(cards, c)
        } else {
            0nat
        }),
    decreases v,
{
    if v >= 2 {
        lemma_total_bounds(cards, a, b, c, v - 1);
    }
}

/// With every rank but `a` and `b` absent, the distinct ranks are those of `a` and `b`.
proof fn lemma_distinct_two(cards: Seq<PlayingCard>, a: int, b: int, v: int)
    requires
        a != b,
        forall|w: int| 2 <= w <= 14 && w != a && w != b ==> rank_count(cards, w) == 0,
    ensures
        distinct_ranks(cards, v) == (if 2 <= a <= v && rank_count(cards, a) > 0 {
            1nat
        } else {
            0nat
        }) + (if 2 <= b <= v && rank_count(cards, b) > 0 {
            1nat
        } else {
            0nat
        }),
    decreases v,
{
    if v >= 2 {
        lemma_distinct_two(cards, a, b, v - 1);
        if v > 14 {
            lemma_rank_count_none(cards, v);
        }
    }
}

/// Two different ranks that are present make at least two distinct ranks.
proof fn lemma_distinct_at_least_two(cards: Seq<PlayingCard>, a: int, b: int, v: int)
    requires
        a != b,
    ensures
        distinct_ranks(cards, v) >= (if 2 <= a <= v && rank_count(cards, a) > 0 {
            1nat
        } else {
            0nat
        }) + (if 2 <= b <= v && rank_count(cards, b) > 0 {
            1nat
        } else {
            0nat
        }),
    decreases v,
{
    if v >= 2 {
        lemma_distinct_at_least_two(cards, a, b, v - 1);
    }
}

/// On five cards that are not a straight flush, `detect_hand` reports a hand the cards
/// contain, and no hand they contain ranks higher: detection follows the standard ranking,
/// ordered as `PokerHand` is.
pub proof fn lemma_detection_is_best_hand(cards: Seq<PlayingCard>)
    requires
        cards.len() == 5,
        !(is_straight(cards) && is_flush(cards)),
    ensures
        contains_hand(cards, hand_type_of(cards)),
        forall|h: PokerHand|
            #[trigger] contains_hand(cards, h) ==> h.spec_strength() <= hand_type_of(
                cards,
            ).spec_strength(),
{
    let g1 = first_group(cards);
    let g2 = second_group(cards);
    let s1 = rank_count(cards, g1);
    let s2 = rank_count(cards, g2);
    lemma_best_group(cards, 0, 14);
    lemma_best_group(cards, g1, 14);
    lemma_rank_total_is_len(cards);
    lemma_rank_count_none(cards, 0);
    if g1 == 0 {
        // no rank is present, yet the counts add up to five
        assert forall|w: int| 2 <= w <= 14 implies rank_count(cards, w) == 0 by {
            assert(rank_count(cards, g1) >= rank_count(cards, w));
        }
        lemma_all_absent_total(cards, 14);
        assert(false);
    }
    assert(2 <= g1 <= 14);
    if s2 > 0 {
        assert(g2 != 0);
        lemma_total_bounds(cards, g1, g2, 0, 14);
        assert(s1 + s2 <= 5);
        lemma_distinct_at_least_two(cards, g1, g2, 14);
        if s1 + s2 == 5 {
            assert forall|w: int| 2 <= w <= 14 && w != g1 && w != g2 implies rank_count(cards, w)
                == 0 by {
                lemma_total_bounds(cards, g1, g2, w, 14);
            }
            lemma_distinct_two(cards, g1, g2, 14);
        }
    }
    assert(s1 <= 5) by {
        lemma_rank_count_bound(cards, g1);
    }
    // a second group that is present lies among the ranks other than the first
    assert forall|v: int, w: int|
        2 <= v <= 14 && 2 <= w <= 14 && v != w implies (rank_count(cards, v) <= s1 && (
        rank_count(cards, w) <= s2 || rank_count(cards, v) <= s2)) by {
        if v == g1 {
            assert(rank_count(cards, w) <= s2);
        } else {
            assert(rank_count(cards, v) <= s2);
        }
    }
    assert forall|h: PokerHand| #[trigger]
        contains_hand(cards, h) implies h.spec_strength() <= hand_type_of(cards).spec_strength() by {
        match h {
            PokerHand::TwoPair | PokerHand::FullHouse | PokerHand::FlushHouse => {
                let (v, w) = choose|v: int, w: int|
                    2 <= v <= 14 && 2 <= w <= 14 && v != w && #[trigger] rank_count(cards, v) >= (
                    if h == PokerHand::TwoPair {
                        2nat
                    } else {
                        3nat
                    }) && #[trigger] rank_count(cards, w) >= 2;
                assert(rank_count(cards, v) <= s1);
                assert(rank_count(cards, w) <= s2 || rank_count(cards, v) <= s2);
            },
            _ => {},
        }
    }
    match hand_type_of(cards) {
        PokerHand::FlushFive | PokerHand::FiveOfAKind | PokerHand::FourOfAKind
        | PokerHand::ThreeOfAKind | PokerHand::Pair => {
            assert(rank_count(cards, g1) == s1);
        },
        PokerHand::FlushHouse | PokerHand::FullHouse | PokerHand::TwoPair => {
            assert(rank_count(cards, g1) == s1 && rank_count(cards, g2) == s2 && g1 != g2);
        },
        _ => {},
    }
}

proof fn lemma_all_absent_total(cards: Seq<PlayingCard>, v: int)
    requires
        forall|w: int| 2 <= w <= 14 ==> rank_count(cards, w) == 0,
        v <= 14,
    ensures
        rank_total(cards, v) == 0,
    decreases v,
{
    if v >= 2 {
        lemma_all_absent_total(cards, v - 1);
    }
}

} // verus!
