use vstd::prelude::*;
use vstd::string::StringExecFns;

use crate::hand::PokerHand;
use crate::text::{decimal, decimal_string};

verus! {

/// Planet cards level up specific poker hands
#[derive(Debug, Clone, Copy, PartialEq, Eq, Hash, Structural)]
pub enum PlanetCard {
    /// High Card
    Pluto,
    /// Pair
    Mercury,
    /// Two Pair
    Uranus,
    /// Three of a Kind
    Venus,
    /// Straight
    Saturn,
    /// Flush
    Jupiter,
    /// Full House
    Earth,
    /// Four of a Kind
    Mars,
    /// Straight Flush
    Neptune,
    /// Five of a Kind
    PlanetX,
    /// Flush House
    Ceres,
    /// Flush Five
    Eris,
}

impl PlanetCard {
    pub open spec fn spec_all() -> Seq<PlanetCard> {
        seq![
            PlanetCard::Pluto,
            PlanetCard::Mercury,
            PlanetCard::Uranus,
            PlanetCard::Venus,
            PlanetCard::Saturn,
            PlanetCard::Jupiter,
            PlanetCard::Earth,
            PlanetCard::Mars,
            PlanetCard::Neptune,
            PlanetCard::PlanetX,
            PlanetCard::Ceres,
            PlanetCard::Eris,
        ]
    }

    /// Every planet card.
    pub fn all() -> (r: Vec<PlanetCard>)
        ensures
            r@ == PlanetCard::spec_all(),
    {
        vec![
            PlanetCard::Pluto,
            PlanetCard::Mercury,
            PlanetCard::Uranus,
            PlanetCard::Venus,
            PlanetCard::Saturn,
            PlanetCard::Jupiter,
            PlanetCard::Earth,
            PlanetCard::Mars,
            PlanetCard::Neptune,
            PlanetCard::PlanetX,
            PlanetCard::Ceres,
            PlanetCard::Eris,
        ]
    }

    /// The planet cards of the common hands (not the secret hands).
    pub open spec fn spec_common() -> Seq<PlanetCard> {
        PlanetCard::spec_all().take(9)
    }

    pub fn common() -> (r: Vec<PlanetCard>)
        ensures
            r@ == PlanetCard::spec_common(),
    {
        let r = vec![
            PlanetCard::Pluto,
            PlanetCard::Mercury,
            PlanetCard::Uranus,
            PlanetCard::Venus,
            PlanetCard::Saturn,
            PlanetCard::Jupiter,
            PlanetCard::Earth,
            PlanetCard::Mars,
            PlanetCard::Neptune,
        ];
        assert(r@ =~= PlanetCard::spec_all().take(9));
        r
    }

    pub open spec fn spec_name(self) -> Seq<char> {
        match self {
            PlanetCard::Pluto => "Pluto"@,
            PlanetCard::Mercury => "Mercury"@,
            PlanetCard::Uranus => "Uranus"@,
            PlanetCard::Venus => "Venus"@,
            PlanetCard::Saturn => "Saturn"@,
            PlanetCard::Jupiter => "Jupiter"@,
            PlanetCard::Earth => "Earth"@,
            PlanetCard::Mars => "Mars"@,
            PlanetCard::Neptune => "Neptune"@,
            PlanetCard::PlanetX => "Planet X"@,
            PlanetCard::Ceres => "Ceres"@,
            PlanetCard::Eris => "Eris"@,
        }
    }

    pub fn name(&self) -> (r: &'static str)
        ensures
            r@ == self.spec_name(),
    {
        match self {
            PlanetCard::Pluto => "Pluto",
            PlanetCard::Mercury => "Mercury",
            PlanetCard::Uranus => "Uranus",
            PlanetCard::Venus => "Venus",
            PlanetCard::Saturn => "Saturn",
            PlanetCard::Jupiter => "Jupiter",
            PlanetCard::Earth => "Earth",
            PlanetCard::Mars => "Mars",
            PlanetCard::Neptune => "Neptune",
            PlanetCard::PlanetX => "Planet X",
            PlanetCard::Ceres => "Ceres",
            PlanetCard::Eris => "Eris",
        }
    }

    pub open spec fn spec_hand_type(self) -> PokerHand {
        match self {
            PlanetCard::Pluto => PokerHand::HighCard,
            PlanetCard::Mercury => PokerHand::Pair,
            PlanetCard::Uranus => PokerHand::TwoPair,
            PlanetCard::Venus => PokerHand::ThreeOfAKind,
            PlanetCard::Saturn => PokerHand::Straight,
            PlanetCard::Jupiter => PokerHand::Flush,
            PlanetCard::Earth => PokerHand::FullHouse,
            PlanetCard::Mars => PokerHand::FourOfAKind,
            PlanetCard::Neptune => PokerHand::StraightFlush,
            PlanetCard::PlanetX => PokerHand::FiveOfAKind,
            PlanetCard::Ceres => PokerHand::FlushHouse,
            PlanetCard::Eris => PokerHand::FlushFive,
        }
    }

    /// The poker hand this planet levels up.
    pub fn hand_type(&self) -> (r: PokerHand)
        ensures
            r == self.spec_hand_type(),
    {
        match self {
            PlanetCard::Pluto => PokerHand::HighCard,
            PlanetCard::Mercury => PokerHand::Pair,
            PlanetCard::Uranus => PokerHand::TwoPair,
            PlanetCard::Venus => PokerHand::ThreeOfAKind,
            PlanetCard::Saturn => PokerHand::Straight,
            PlanetCard::Jupiter => PokerHand::Flush,
            PlanetCard::Earth => PokerHand::FullHouse,
            PlanetCard::Mars => PokerHand::FourOfAKind,
            PlanetCard::Neptune => PokerHand::StraightFlush,
            PlanetCard::PlanetX => PokerHand::FiveOfAKind,
            PlanetCard::Ceres => PokerHand::FlushHouse,
            PlanetCard::Eris => PokerHand::FlushFive,
        }
    }

    /// "Level up <hand> (+<chips> Chips, +<mult> Mult)".
    pub open spec fn spec_description(self) -> Seq<char> {
        let hand = self.spec_hand_type();
        "Level up "@ + hand.spec_name() + " (+"@ + decimal(hand.spec_level_up_chips() as nat)
            + " Chips, +"@ + decimal(hand.spec_level_up_mult() as nat) + " Mult)"@
    }

    pub fn description(&self) -> (r: String)
        ensures
            r@ == self.spec_description(),
    {
        let hand = self.hand_type();
        let mut s = String::from_str("Level up ");
        s.append(hand.name());
        s.append(" (+");
        let chips = decimal_string(hand.level_up_chips());
        s.append(chips.as_str());
        s.append(" Chips, +");
        let mult = decimal_string(hand.level_up_mult());
        s.append(mult.as_str());
        s.append(" Mult)");
        s
    }
}

/// Tarot cards modify playing cards
#[derive(Debug, Clone, Copy, PartialEq, Eq, Hash, Structural)]
pub enum TarotCard {
    /// Create copy of last Tarot/Planet used
    TheFool,
    /// Enhance 1-2 cards to Lucky
    TheMagician,
    /// Create up to 2 Planet cards
    TheHighPriestess,
    /// Enhance 1-2 cards to Mult
    TheEmpress,
    /// Create up to 2 Tarot cards
    TheEmperor,
    /// Enhance 1-2 cards to Bonus
    TheHierophant,
    /// Enhance 1 card to Wild
    TheLover,
    /// Enhance 1 card to Steel
    TheChariot,
    /// Increase rank of up to 2 cards by 1
    Strength,
    /// Double money (max $20)
    TheHermit,
    /// Convert left card to right card (2 selected)
    Death,
    /// Gain money equal to sell value of jokers (max $50)
    Temperance,
}

impl TarotCard {
    pub open spec fn spec_all() -> Seq<TarotCard> {
        seq![
            TarotCard::TheFool,
            TarotCard::TheMagician,
            TarotCard::TheHighPriestess,
            TarotCard::TheEmpress,
            TarotCard::TheEmperor,
            TarotCard::TheHierophant,
            TarotCard::TheLover,
            TarotCard::TheChariot,
            TarotCard::Strength,
            TarotCard::TheHermit,
            TarotCard::Death,
            TarotCard::Temperance,
        ]
    }

    pub fn all() -> (r: Vec<TarotCard>)
        ensures
            r@ == TarotCard::spec_all(),
    {
        vec![
            TarotCard::TheFool,
            TarotCard::TheMagician,
            TarotCard::TheHighPriestess,
            TarotCard::TheEmpress,
            TarotCard::TheEmperor,
            TarotCard::TheHierophant,
            TarotCard::TheLover,
            TarotCard::TheChariot,
            TarotCard::Strength,
            TarotCard::TheHermit,
            TarotCard::Death,
            TarotCard::Temperance,
        ]
    }

    pub open spec fn spec_name(self) -> Seq<char> {
        match self {
            TarotCard::TheFool => "The Fool"@,
            TarotCard::TheMagician => "The Magician"@,
            TarotCard::TheHighPriestess => "High Priestess"@,
            TarotCard::TheEmpress => "The Empress"@,
            TarotCard::TheEmperor => "The Emperor"@,
            TarotCard::TheHierophant => "Hierophant"@,
            TarotCard::TheLover => "The Lover"@,
            TarotCard::TheChariot => "The Chariot"@,
            TarotCard::Strength => "Strength"@,
            TarotCard::TheHermit => "The Hermit"@,
            TarotCard::Death => "Death"@,
            TarotCard::Temperance => "Temperance"@,
        }
    }

    pub fn name(&self) -> (r: &'static str)
        ensures
            r@ == self.spec_name(),
    {
        match self {
            TarotCard::TheFool => "The Fool",
            TarotCard::TheMagician => "The Magician",
            TarotCard::TheHighPriestess => "High Priestess",
            TarotCard::TheEmpress => "The Empress",
            TarotCard::TheEmperor => "The Emperor",
            TarotCard::TheHierophant => "Hierophant",
            TarotCard::TheLover => "The Lover",
            TarotCard::TheChariot => "The Chariot",
            TarotCard::Strength => "Strength",
            TarotCard::TheHermit => "The Hermit",
            TarotCard::Death => "Death",
            TarotCard::Temperance => "Temperance",
        }
    }

    pub open spec fn spec_description(self) -> Seq<char> {
        match self {
            TarotCard::TheFool => "Copy last Tarot/Planet used"@,
            TarotCard::TheMagician => "Enhance 1-2 cards to Lucky"@,
            TarotCard::TheHighPriestess => "Create up to 2 Planet cards"@,
            TarotCard::TheEmpress => "Enhance 1-2 cards to Mult"@,
            TarotCard::TheEmperor => "Create up to 2 Tarot cards"@,
            TarotCard::TheHierophant => "Enhance 1-2 cards to Bonus"@,
            TarotCard::TheLover => "Enhance 1 card to Wild"@,
            TarotCard::TheChariot => "Enhance 1 card to Steel"@,
            TarotCard::Strength => "Increase rank of 1-2 cards by 1"@,
            TarotCard::TheHermit => "Double money (max $20)"@,
            TarotCard::Death => "Convert left card to right card"@,
            TarotCard::Temperance => "Gain $ equal to joker sell value"@,
        }
    }

    pub fn description(&self) -> (r: &'static str)
        ensures
            r@ == self.spec_description(),
    {
        match self {
            TarotCard::TheFool => "Copy last Tarot/Planet used",
            TarotCard::TheMagician => "Enhance 1-2 cards to Lucky",
            TarotCard::TheHighPriestess => "Create up to 2 Planet cards",
            TarotCard::TheEmpress => "Enhance 1-2 cards to Mult",
            TarotCard::TheEmperor => "Create up to 2 Tarot cards",
            TarotCard::TheHierophant => "Enhance 1-2 cards to Bonus",
            TarotCard::TheLover => "Enhance 1 card to Wild",
            TarotCard::TheChariot => "Enhance 1 card to Steel",
            TarotCard::Strength => "Increase rank of 1-2 cards by 1",
            TarotCard::TheHermit => "Double money (max $20)",
            TarotCard::Death => "Convert left card to right card",
            TarotCard::Temperance => "Gain $ equal to joker sell value",
        }
    }

    /// The least and the most cards that must be selected to use the tarot.
    pub open spec fn spec_cards_needed(self) -> (usize, usize) {
        match self {
            TarotCard::TheFool | TarotCard::TheHighPriestess | TarotCard::TheEmperor
            | TarotCard::TheHermit | TarotCard::Temperance => (0, 0),
            TarotCard::TheLover | TarotCard::TheChariot => (1, 1),
            TarotCard::Death => (2, 2),
            _ => (1, 2),
        }
    }

    /// How many cards this tarot needs selected
    pub fn cards_needed(&self) -> (r: (usize, usize))
        ensures
            r == self.spec_cards_needed(),
    {
        match self {
            TarotCard::TheFool | TarotCard::TheHighPriestess | TarotCard::TheEmperor
            | TarotCard::TheHermit | TarotCard::Temperance => (0, 0),
            TarotCard::TheLover | TarotCard::TheChariot => (1, 1),
            TarotCard::Death => (2, 2),
            _ => (1, 2),
        }
    }
}

/// Type of consumable
#[derive(Debug, Clone, Copy, PartialEq, Eq, Hash, Structural)]
pub enum ConsumableType {
    Planet(PlanetCard),
    Tarot(TarotCard),
}

impl ConsumableType {
    pub open spec fn spec_name(self) -> Seq<char> {
        match self {
            ConsumableType::Planet(p) => p.spec_name(),
            ConsumableType::Tarot(t) => t.spec_name(),
        }
    }

    pub fn name(&self) -> (r: &'static str)
        ensures
            r@ == self.spec_name(),
    {
        match self {
            ConsumableType::Planet(p) => p.name(),
            ConsumableType::Tarot(t) => t.name(),
        }
    }

    pub open spec fn spec_description(self) -> Seq<char> {
        match self {
            ConsumableType::Planet(p) => p.spec_description(),
            ConsumableType::Tarot(t) => t.spec_description(),
        }
    }

    pub fn description(&self) -> (r: String)
        ensures
            r@ == self.spec_description(),
    {
        match self {
            ConsumableType::Planet(p) => p.description(),
            ConsumableType::Tarot(t) => String::from_str(t.description()),
        }
    }

    /// Every consumable costs $3.
    pub open spec fn spec_price(self) -> u32 {
        3
    }

    pub fn price(&self) -> (r: u32)
        ensures
            r == self.spec_price(),
    {
        match self {
            ConsumableType::Planet(_) => 3,
            ConsumableType::Tarot(_) => 3,
        }
    }
}

/// A consumable instance
#[derive(Debug, Clone, Copy, PartialEq, Eq, Structural)]
pub struct Consumable {
    pub consumable_type: ConsumableType,
}

impl Consumable {
    pub fn new(consumable_type: ConsumableType) -> (r: Self)
        ensures
            r.consumable_type == consumable_type,
    {
        Consumable { consumable_type }
    }

    pub fn planet(card: PlanetCard) -> (r: Self)
        ensures
            r.consumable_type == ConsumableType::Planet(card),
    {
        Consumable::new(ConsumableType::Planet(card))
    }

    pub fn tarot(card: TarotCard) -> (r: Self)
        ensures
            r.consumable_type == ConsumableType::Tarot(card),
    {
        Consumable::new(ConsumableType::Tarot(card))
    }
}

} // verus!
