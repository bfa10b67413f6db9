use vstd::prelude::*;

verus! {

/// A non-negative rational multiplier `num / den` (for instance ×1.5 is `3 / 2`).
#[derive(Debug, Clone, Copy, PartialEq, Eq, Structural)]
pub struct Ratio {
    pub num: u64,
    pub den: u64,
}

impl Ratio {
    /// A ratio is meaningful when its denominator is positive.
    pub open spec fn wf(self) -> bool {
        self.den > 0
    }

    /// Whether the ratio stands for exactly one.
    pub open spec fn is_one(self) -> bool {
        self.num == self.den
    }

    pub fn is_identity(&self) -> (r: bool)
        ensures
            r == self.is_one(),
    {
        self.num == self.den
    }
}

#[derive(Debug, Clone, Copy, PartialEq, Eq, Hash, Structural)]
pub enum Suit {
    Spades,
    Hearts,
    Diamonds,
    Clubs,
}

impl Suit {
    pub open spec fn spec_is_red(self) -> bool {
        self == Suit::Hearts || self == Suit::Diamonds
    }

    pub open spec fn spec_symbol(self) -> char {
        match self {
            Suit::Spades => '\u{2660}',
            Suit::Hearts => '\u{2665}',
            Suit::Diamonds => '\u{2666}',
            Suit::Clubs => '\u{2663}',
        }
    }

    /// The suit's card symbol (♠ ♥ ♦ ♣).
    pub fn symbol(&self) -> (r: char)
        ensures
            r == self.spec_symbol(),
    {
        match self {
            Suit::Spades => '\u{2660}',
            Suit::Hearts => '\u{2665}',
            Suit::Diamonds => '\u{2666}',
            Suit::Clubs => '\u{2663}',
        }
    }

    pub fn is_red(&self) -> (r: bool)
        ensures
            r == self.spec_is_red(),
    {
        match self {
            Suit::Hearts | Suit::Diamonds => true,
            _ => false,
        }
    }

    /// Position of the suit in the order Spades, Hearts, Diamonds, Clubs.
    pub open spec fn spec_order(self) -> u8 {
        match self {
            Suit::Spades => 0,
            Suit::Hearts => 1,
            Suit::Diamonds => 2,
            Suit::Clubs => 3,
        }
    }

    pub fn order(&self) -> (r: u8)
        ensures
            r == self.spec_order(),
    {
        match self {
            Suit::Spades => 0,
            Suit::Hearts => 1,
            Suit::Diamonds => 2,
            Suit::Clubs => 3,
        }
    }

    /// All four suits, in their canonical order.
    pub fn all() -> (r: Vec<Suit>)
        ensures
            r@ == seq![Suit::Spades, Suit::Hearts, Suit::Diamonds, Suit::Clubs],
    {
        vec![Suit::Spades, Suit::Hearts, Suit::Diamonds, Suit::Clubs]
    }
}

#[derive(Debug, Clone, Copy, PartialEq, Eq, PartialOrd, Ord, Hash, Structural)]
pub enum Rank {
    Two,
    Three,
    Four,
    Five,
    Six,
    Seven,
    Eight,
    Nine,
    Ten,
    Jack,
    Queen,
    King,
    Ace,
}

impl Rank {
    /// The rank's ordinal value: 2 for Two up to 14 for Ace.
    pub open spec fn spec_value(self) -> u8 {
        match self {
            Rank::Two => 2,
            Rank::Three => 3,
            Rank::Four => 4,
            Rank::Five => 5,
            Rank::Six => 6,
            Rank::Seven => 7,
            Rank::Eight => 8,
            Rank::Nine => 9,
            Rank::Ten => 10,
            Rank::Jack => 11,
            Rank::Queen => 12,
            Rank::King => 13,
            Rank::Ace => 14,
        }
    }

    pub fn value(&self) -> (r: u8)
        ensures
            r == self.spec_value(),
            2 <= r <= 14,
    {
        match self {
            Rank::Two => 2,
            Rank::Three => 3,
            Rank::Four => 4,
            Rank::Five => 5,
            Rank::Six => 6,
            Rank::Seven => 7,
            Rank::Eight => 8,
            Rank::Nine => 9,
            Rank::Ten => 10,
            Rank::Jack => 11,
            Rank::Queen => 12,
            Rank::King => 13,
            Rank::Ace => 14,
        }
    }

    /// The rank whose ordinal value is `v` (2..=14).
    pub open spec fn spec_from_value(v: int) -> Rank {
        if v <= 2 {
            Rank::Two
        } else if v == 3 {
            Rank::Three
        } else if v == 4 {
            Rank::Four
        } else if v == 5 {
            Rank::Five
        } else if v == 6 {
            Rank::Six
        } else if v == 7 {
            Rank::Seven
        } else if v == 8 {
            Rank::Eight
        } else if v == 9 {
            Rank::Nine
        } else if v == 10 {
            Rank::Ten
        } else if v == 11 {
            Rank::Jack
        } else if v == 12 {
            Rank::Queen
        } else if v == 13 {
            Rank::King
        } else {
            Rank::Ace
        }
    }

    pub fn from_value(v: u8) -> (r: Rank)
        requires
            2 <= v <= 14,
        ensures
            r == Rank::spec_from_value(v as int),
            r.spec_value() == v,
    {
        if v <= 2 {
            Rank::Two
        } else if v == 3 {
            Rank::Three
        } else if v == 4 {
            Rank::Four
        } else if v == 5 {
            Rank::Five
        } else if v == 6 {
            Rank::Six
        } else if v == 7 {
            Rank::Seven
        } else if v == 8 {
            Rank::Eight
        } else if v == 9 {
            Rank::Nine
        } else if v == 10 {
            Rank::Ten
        } else if v == 11 {
            Rank::Jack
        } else if v == 12 {
            Rank::Queen
        } else if v == 13 {
            Rank::King
        } else {
            Rank::Ace
        }
    }

    /// Chips a card of this rank is worth when it scores.
    pub open spec fn spec_chip_value(self) -> u64 {
        match self {
            Rank::Ten | Rank::Jack | Rank::Queen | Rank::King => 10,
            Rank::Ace => 11,
            _ => self.spec_value() as u64,
        }
    }

    /// Chip value when this card scores
    pub fn chip_value(&self) -> (r: u64)
        ensures
            r == self.spec_chip_value(),
    {
        match self {
            Rank::Ten | Rank::Jack | Rank::Queen | Rank::King => 10,
            Rank::Ace => 11,
            _ => self.value() as u64,
        }
    }

    pub open spec fn spec_short_name(self) -> Seq<char> {
        match self {
            Rank::Two => "2"@,
            Rank::Three => "3"@,
            Rank::Four => "4"@,
            Rank::Five => "5"@,
            Rank::Six => "6"@,
            Rank::Seven => "7"@,
            Rank::Eight => "8"@,
            Rank::Nine => "9"@,
            Rank::Ten => "10"@,
            Rank::Jack => "J"@,
            Rank::Queen => "Q"@,
            Rank::King => "K"@,
            Rank::Ace => "A"@,
        }
    }

    pub fn short_name(&self) -> (r: &'static str)
        ensures
            r@ == self.spec_short_name(),
    {
        match self {
            Rank::Two => "2",
            Rank::Three => "3",
            Rank::Four => "4",
            Rank::Five => "5",
            Rank::Six => "6",
            Rank::Seven => "7",
            Rank::Eight => "8",
            Rank::Nine => "9",
            Rank::Ten => "10",
            Rank::Jack => "J",
            Rank::Queen => "Q",
            Rank::King => "K",
            Rank::Ace => "A",
        }
    }

    pub open spec fn spec_is_face(self) -> bool {
        self == Rank::Jack || self == Rank::Queen || self == Rank::King
    }

    pub fn is_face(&self) -> (r: bool)
        ensures
            r == self.spec_is_face(),
    {
        match self {
            Rank::Jack | Rank::Queen | Rank::King => true,
            _ => false,
        }
    }

    /// The next rank up, wrapping from Ace back to Two.
    pub open spec fn spec_next(self) -> Rank {
        if self == Rank::Ace {
            Rank::Two
        } else {
            Rank::spec_from_value(self.spec_value() + 1)
        }
    }

    pub fn next(&self) -> (r: Rank)
        ensures
            r == self.spec_next(),
    {
        let v = self.value();
        if v == 14 {
            Rank::Two
        } else {
            Rank::from_value(v + 1)
        }
    }

    /// All thirteen ranks, from Two to Ace.
    pub fn all() -> (r: Vec<Rank>)
        ensures
            r@.len() == 13,
            forall|i: int| 0 <= i < 13 ==> (#[trigger] r@[i]).spec_value() == i + 2,
    {
        vec![
            Rank::Two,
            Rank::Three,
            Rank::Four,
            Rank::Five,
            Rank::Six,
            Rank::Seven,
            Rank::Eight,
            Rank::Nine,
            Rank::Ten,
            Rank::Jack,
            Rank::Queen,
            Rank::King,
            Rank::Ace,
        ]
    }
}

#[derive(Debug, Clone, Copy, PartialEq, Eq, Hash, Structural)]
pub enum Enhancement {
    /// +30 chips
    Bonus,
    /// +4 mult
    Mult,
    /// Counts as every suit
    Wild,
    /// ×2 mult
    Glass,
    /// Multiplies mult while held in hand
    Steel,
    /// 50 chips regardless of rank, always scores
    Stone,
    /// Pays out when held at the end of a round
    Gold,
    /// Chance of extra mult or money
    Lucky,
}

#[derive(Debug, Clone, Copy, PartialEq, Eq, Hash, Structural)]
pub enum Edition {
    Base,
    /// +50 chips
    Foil,
    /// +10 mult
    Holographic,
    /// ×1.5 mult
    Polychrome,
}

impl Default for Edition {
    fn default() -> (r: Self)
        ensures
            r == Edition::Base,
    {
        Edition::Base
    }
}

#[derive(Debug, Clone, Copy, PartialEq, Eq, Hash, Structural)]
pub enum Seal {
    Gold,
    Red,
    Blue,
    Purple,
}

#[derive(Debug, Clone, Copy, PartialEq, Eq, Hash, Structural)]
pub struct PlayingCard {
    pub rank: Rank,
    pub suit: Suit,
    pub enhancement: Option<Enhancement>,
    pub edition: Edition,
    pub seal: Option<Seal>,
    pub debuffed: bool,
}

impl PlayingCard {
    /// A plain card: no enhancement, base edition, no seal, not debuffed.
    pub open spec fn plain(rank: Rank, suit: Suit) -> PlayingCard {
        PlayingCard {
            rank,
            suit,
            enhancement: None,
            edition: Edition::Base,
            seal: None,
            debuffed: false,
        }
    }

    pub fn new(rank: Rank, suit: Suit) -> (r: Self)
        ensures
            r == PlayingCard::plain(rank, suit),
    {
        PlayingCard {
            rank,
            suit,
            enhancement: None,
            edition: Edition::default(),
            seal: None,
            debuffed: false,
        }
    }

    /// Chips this card contributes: its rank's chips (50 for Stone), +30 for Bonus,
    /// +50 for Foil; nothing when debuffed.
    pub open spec fn spec_chip_value(self) -> u64 {
        if self.debuffed {
            0
        } else {
            let base: u64 = if self.enhancement == Some(Enhancement::Stone) {
                50
            } else {
                self.rank.spec_chip_value()
            };
            let bonus: u64 = if self.enhancement == Some(Enhancement::Bonus) {
                30
            } else {
                0
            };
            let edition_bonus: u64 = if self.edition == Edition::Foil {
                50
            } else {
                0
            };
            (base + bonus + edition_bonus) as u64
        }
    }

    /// Effective chip value considering enhancements
    pub fn chip_value(&self) -> (r: u64)
        ensures
            r == self.spec_chip_value(),
            r <= 130,
    {
        if self.debuffed {
            return 0;
        }
        let base: u64 = match self.enhancement {
            Some(Enhancement::Stone) => 50,
            _ => self.rank.chip_value(),
        };
        let bonus: u64 = match self.enhancement {
            Some(Enhancement::Bonus) => 30,
            _ => 0,
        };
        let edition_bonus: u64 = match self.edition {
            Edition::Foil => 50,
            _ => 0,
        };
        base + bonus + edition_bonus
    }

    /// Flat mult: +4 for the Mult enhancement, +10 for Holographic; nothing when debuffed.
    pub open spec fn spec_mult_bonus(self) -> u64 {
        if self.debuffed {
            0
        } else {
            let enh: u64 = if self.enhancement == Some(Enhancement::Mult) {
                4
            } else {
                0
            };
            let ed: u64 = if self.edition == Edition::Holographic {
                10
            } else {
                0
            };
            (enh + ed) as u64
        }
    }

    /// Additional mult from this card's enhancement/edition
    pub fn mult_bonus(&self) -> (r: u64)
        ensures
            r == self.spec_mult_bonus(),
            r <= 14,
    {
        if self.debuffed {
            return 0;
        }
        let enh: u64 = match self.enhancement {
            Some(Enhancement::Mult) => 4,
            _ => 0,
        };
        let ed: u64 = match self.edition {
            Edition::Holographic => 10,
            _ => 0,
        };
        enh + ed
    }

    /// Multiplicative mult: ×2 for Glass, ×3/2 for Polychrome, both compounded
    /// (kept over the denominator 2); exactly one when debuffed.
    pub open spec fn spec_x_mult(self) -> Ratio {
        if self.debuffed {
            Ratio { num: 1, den: 1 }
        } else {
            let glass = self.enhancement == Some(Enhancement::Glass);
            let poly = self.edition == Edition::Polychrome;
            if glass && poly {
                Ratio { num: 6, den: 2 }
            } else if glass {
                Ratio { num: 2, den: 1 }
            } else if poly {
                Ratio { num: 3, den: 2 }
            } else {
                Ratio { num: 1, den: 1 }
            }
        }
    }

    /// Multiplicative mult from this card
    pub fn x_mult(&self) -> (r: Ratio)
        ensures
            r == self.spec_x_mult(),
            r.wf(),
            r.den <= r.num <= 3 * r.den,
    {
        if self.debuffed {
            return Ratio { num: 1, den: 1 };
        }
        let glass = match self.enhancement {
            Some(Enhancement::Glass) => true,
            _ => false,
        };
        let poly = match self.edition {
            Edition::Polychrome => true,
            _ => false,
        };
        if glass && poly {
            Ratio { num: 6, den: 2 }
        } else if glass {
            Ratio { num: 2, den: 1 }
        } else if poly {
            Ratio { num: 3, den: 2 }
        } else {
            Ratio { num: 1, den: 1 }
        }
    }

    pub open spec fn spec_is_wild(self) -> bool {
        self.enhancement == Some(Enhancement::Wild)
    }

    /// Whether this card acts as a wild (all suits)
    pub fn is_wild(&self) -> (r: bool)
        ensures
            r == self.spec_is_wild(),
    {
        match self.enhancement {
            Some(Enhancement::Wild) => true,
            _ => false,
        }
    }

    pub open spec fn spec_always_scores(self) -> bool {
        self.enhancement == Some(Enhancement::Stone)
    }

    /// Whether this card always scores regardless of hand
    pub fn always_scores(&self) -> (r: bool)
        ensures
            r == self.spec_always_scores(),
    {
        match self.enhancement {
            Some(Enhancement::Stone) => true,
            _ => false,
        }
    }

    /// Whether the card counts as the given suit (its own suit, or any suit when wild).
    pub open spec fn spec_counts_as(self, suit: Suit) -> bool {
        self.suit == suit || self.spec_is_wild()
    }

    pub fn counts_as(&self, suit: Suit) -> (r: bool)
        ensures
            r == self.spec_counts_as(suit),
    {
        self.suit == suit || self.is_wild()
    }
}

} // verus!
