use rand::rngs::StdRng;
use vstd::prelude::*;

use crate::card::{PlayingCard, Rank, Suit};
use crate::rng::shuffle_vec;

verus! {

/// The thirteen plain cards of one suit, Two to Ace.
pub open spec fn suit_run(suit: Suit) -> Seq<PlayingCard> {
    Seq::new(13, |i: int| PlayingCard::plain(Rank::spec_from_value(i + 2), suit))
}

/// The standard 52-card deck: Spades, Hearts, Diamonds, then Clubs, each Two to Ace.
pub open spec fn standard_cards() -> Seq<PlayingCard> {
    suit_run(Suit::Spades) + suit_run(Suit::Hearts) + suit_run(Suit::Diamonds) + suit_run(
        Suit::Clubs,
    )
}

/// The top `k` cards of a pile, the top one first.
pub open spec fn top_of(pile: Seq<PlayingCard>, k: int) -> Seq<PlayingCard> {
    Seq::new(k as nat, |i: int| pile[pile.len() - 1 - i])
}

/// How many cards a draw of `n` takes from a pile of `len`.
pub open spec fn draw_count(len: int, n: int) -> int {
    if n < len {
        n
    } else {
        len
    }
}

/// The first position of `card` in `s`.
pub open spec fn is_first_position(s: Seq<PlayingCard>, card: PlayingCard, i: int) -> bool {
    0 <= i < s.len() && s[i] == card && forall|j: int| 0 <= j < i ==> s[j] != card
}

/// A draw pile and a discard pile.
#[derive(Debug, Clone)]
pub struct Deck {
    cards: Vec<PlayingCard>,
    discard: Vec<PlayingCard>,
}

fn push_suit(cards: &mut Vec<PlayingCard>, suit: Suit)
    ensures
        final(cards)@ == old(cards)@ + suit_run(suit),
{
    let ghost start = cards@;
    let mut v: u8 = 2;
    while v <= 14
        invariant
            2 <= v <= 15,
            cards@ == start + suit_run(suit).take(v - 2),
        decreases 15 - v,
    {
        cards.push(PlayingCard::new(Rank::from_value(v), suit));
        proof {
            assert(cards@ =~= start + suit_run(suit).take(v - 1));
        }
        v += 1;
    }
    proof {
        assert(suit_run(suit).take(13) =~= suit_run(suit));
    }
}

fn push_all(dst: &mut Vec<PlayingCard>, src: &[PlayingCard])
    ensures
        final(dst)@ == old(dst)@ + src@,
{
    let ghost start = dst@;
    let mut i: usize = 0;
    while i < src.len()
        invariant
            i <= src@.len(),
            dst@ == start + src@.take(i as int),
        decreases src@.len() - i,
    {
        dst.push(src[i]);
        proof {
            assert(dst@ =~= start + src@.take(i as int + 1));
        }
        i += 1;
    }
    proof {
        assert(src@.take(src@.len() as int) =~= src@);
    }
}

fn position_of(s: &Vec<PlayingCard>, card: &PlayingCard) -> (r: Option<usize>)
    ensures
        r matches Some(i) ==> is_first_position(s@, *card, i as int),
        r is None ==> !s@.contains(*card),
{
    let mut i: usize = 0;
    while i < s.len()
        invariant
            i <= s@.len(),
            forall|j: int| 0 <= j < i ==> s@[j] != *card,
        decreases s@.len() - i,
    {
        if s[i] == *card {
            return Some(i);
        }
        i += 1;
    }
    None
}

impl Deck {
    /// The cards still to be drawn; the last one is drawn first.
    pub closed spec fn draw_pile(&self) -> Seq<PlayingCard> {
        self.cards@
    }

    /// The cards discarded since the last reshuffle, oldest first.
    pub closed spec fn discard_pile(&self) -> Seq<PlayingCard> {
        self.discard@
    }

    /// Create a standard 52-card deck
    pub fn standard() -> (r: Self)
        ensures
            r.draw_pile() == standard_cards(),
            r.discard_pile() == Seq::<PlayingCard>::empty(),
    {
        let mut cards: Vec<PlayingCard> = Vec::new();
        push_suit(&mut cards, Suit::Spades);
        push_suit(&mut cards, Suit::Hearts);
        push_suit(&mut cards, Suit::Diamonds);
        push_suit(&mut cards, Suit::Clubs);
        proof {
            assert(cards@ =~= standard_cards());
        }
        Deck { cards, discard: Vec::new() }
    }

    /// Shuffle the draw pile
    pub fn shuffle(&mut self, rng: &mut StdRng)
        ensures
            final(self).draw_pile().to_multiset() == old(self).draw_pile().to_multiset(),
            final(self).draw_pile().len() == old(self).draw_pile().len(),
            final(self).discard_pile() == old(self).discard_pile(),
    {
        shuffle_vec(&mut self.cards, rng);
    }

    /// Draw up to `n` cards from the top of the draw pile (fewer when it runs low).
    pub fn draw(&mut self, n: usize) -> (drawn: Vec<PlayingCard>)
        ensures
            ({
                let len = old(self).draw_pile().len() as int;
                let k = draw_count(len, n as int);
                &&& drawn@ == top_of(old(self).draw_pile(), k)
                &&& final(self).draw_pile() == old(self).draw_pile().take(len - k)
                &&& final(self).discard_pile() == old(self).discard_pile()
            }),
    {
        let ghost start = self.cards@;
        let mut drawn: Vec<PlayingCard> = Vec::new();
        let mut i: usize = 0;
        while i < n
            invariant
                i <= n,
                self.discard@ == old(self).discard@,
                start == old(self).cards@,
                i <= start.len(),
                self.cards@ == start.take(start.len() - i),
                drawn@.len() == i,
                forall|j: int| 0 <= j < i ==> drawn@[j] == #[trigger] start[start.len() - 1 - j],
            ensures
                i == n || i == start.len(),
                self.discard@ == old(self).discard@,
                i <= start.len(),
                self.cards@ == start.take(start.len() - i),
                drawn@.len() == i,
                forall|j: int| 0 <= j < i ==> drawn@[j] == #[trigger] start[start.len() - 1 - j],
            decreases n - i,
        {
            match self.cards.pop() {
                Some(card) => {
                    drawn.push(card);
                    proof {
                        assert(self.cards@ =~= start.take(start.len() - i - 1));
                    }
                },
                None => {
                    break;
                },
            }
            i += 1;
        }
        proof {
            assert(drawn@ =~= top_of(start, i as int));
        }
        drawn
    }

    /// Put cards into the discard pile
    pub fn discard_cards(&mut self, cards: &[PlayingCard])
        ensures
            final(self).discard_pile() == old(self).discard_pile() + cards@,
            final(self).draw_pile() == old(self).draw_pile(),
    {
        push_all(&mut self.discard, cards);
    }

    /// Shuffle the discard pile back into the draw pile
    pub fn reshuffle_discard(&mut self, rng: &mut StdRng)
        ensures
            final(self).draw_pile().to_multiset() == (old(self).draw_pile()
                + old(self).discard_pile()).to_multiset(),
            final(self).draw_pile().len() == old(self).draw_pile().len() + old(
                self,
            ).discard_pile().len(),
            final(self).discard_pile() == Seq::<PlayingCard>::empty(),
    {
        self.cards.append(&mut self.discard);
        self.shuffle(rng);
    }

    /// Cards remaining in draw pile
    pub fn remaining(&self) -> (r: usize)
        ensures
            r == self.draw_pile().len(),
    {
        self.cards.len()
    }

    /// Cards in discard pile
    pub fn discard_count(&self) -> (r: usize)
        ensures
            r == self.discard_pile().len(),
    {
        self.discard.len()
    }

    /// Total cards in the deck (draw + discard)
    pub fn total(&self) -> (r: usize)
        requires
            self.draw_pile().len() + self.discard_pile().len() <= usize::MAX,
        ensures
            r == self.draw_pile().len() + self.discard_pile().len(),
    {
        self.cards.len() + self.discard.len()
    }

    /// Gather the discard pile back into the draw pile and shuffle everything.
    pub fn reset_and_shuffle(&mut self, rng: &mut StdRng)
        ensures
            final(self).draw_pile().to_multiset() == (old(self).draw_pile()
                + old(self).discard_pile()).to_multiset(),
            final(self).draw_pile().len() == old(self).draw_pile().len() + old(
                self,
            ).discard_pile().len(),
            final(self).discard_pile() == Seq::<PlayingCard>::empty(),
    {
        self.reshuffle_discard(rng);
    }

    /// Add a card to the deck
    pub fn add_card(&mut self, card: PlayingCard)
        ensures
            final(self).draw_pile() == old(self).draw_pile().push(card),
            final(self).discard_pile() == old(self).discard_pile(),
    {
        self.cards.push(card);
    }

    /// Remove the first copy of `card` from the draw pile, or else from the discard pile;
    /// false when neither holds it.
    pub fn remove_card(&mut self, card: &PlayingCard) -> (r: bool)
        ensures
            r == (old(self).draw_pile().contains(*card) || old(self).discard_pile().contains(
                *card,
            )),
            old(self).draw_pile().contains(*card) ==> exists|i: int|
                is_first_position(old(self).draw_pile(), *card, i) && final(self).draw_pile()
                    == old(self).draw_pile().remove(i) && final(self).discard_pile() == old(
                    self,
                ).discard_pile(),
            !old(self).draw_pile().contains(*card) && old(self).discard_pile().contains(*card)
                ==> exists|i: int|
                is_first_position(old(self).discard_pile(), *card, i) && final(self).discard_pile()
                    == old(self).discard_pile().remove(i) && final(self).draw_pile() == old(
                    self,
                ).draw_pile(),
            !r ==> final(self).draw_pile() == old(self).draw_pile() && final(self).discard_pile()
                == old(self).discard_pile(),
    {
        match position_of(&self.cards, card) {
            Some(pos) => {
                self.cards.remove(pos);
                assert(old(self).cards@[pos as int] == *card);
                true
            },
            None => match position_of(&self.discard, card) {
                Some(pos) => {
                    self.discard.remove(pos);
                    assert(old(self).discard@[pos as int] == *card);
                    true
                },
                None => false,
            },
        }
    }

    /// Every card of the deck: the draw pile, then the discard pile.
    pub fn all_cards(&self) -> (r: Vec<PlayingCard>)
        ensures
            r@ == self.draw_pile() + self.discard_pile(),
    {
        let mut all: Vec<PlayingCard> = Vec::new();
        push_all(&mut all, self.cards.as_slice());
        push_all(&mut all, self.discard.as_slice());
        proof {
            assert(all@ =~= self.cards@ + self.discard@);
        }
        all
    }
}

} // verus!
