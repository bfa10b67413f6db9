use vstd::prelude::*;
use vstd::string::StringExecFns;

use crate::card::Ratio;

verus! {

/// Boss blind effects
#[derive(Debug, Clone, Copy, PartialEq, Eq, Structural)]
pub enum BossBlind {
    /// Discards 2 random cards per hand played
    TheHook,
    /// 4x base chips (extra large target)
    TheWall,
    /// Must play exactly 5 cards
    ThePsychic,
    /// Only 1 hand allowed
    TheNeedle,
    /// All Club cards debuffed
    TheClub,
    /// All Spade cards debuffed
    TheGoad,
    /// All Diamond cards debuffed
    TheWindow,
    /// All Heart cards debuffed
    TheHead,
}

impl BossBlind {
    /// All boss blinds, in catalogue order.
    pub open spec fn spec_all() -> Seq<BossBlind> {
        seq![
            BossBlind::TheHook,
            BossBlind::TheWall,
            BossBlind::ThePsychic,
            BossBlind::TheNeedle,
            BossBlind::TheClub,
            BossBlind::TheGoad,
            BossBlind::TheWindow,
            BossBlind::TheHead,
        ]
    }

    pub fn all() -> (r: Vec<BossBlind>)
        ensures
            r@ == BossBlind::spec_all(),
    {
        vec![
            BossBlind::TheHook,
            BossBlind::TheWall,
            BossBlind::ThePsychic,
            BossBlind::TheNeedle,
            BossBlind::TheClub,
            BossBlind::TheGoad,
            BossBlind::TheWindow,
            BossBlind::TheHead,
        ]
    }

    /// Factor applied to the ante's base chips: ×4 for The Wall, ×2 for every other boss.
    pub open spec fn spec_score_multiplier(self) -> Ratio {
        if self == BossBlind::TheWall {
            Ratio { num: 4, den: 1 }
        } else {
            Ratio { num: 2, den: 1 }
        }
    }

    pub fn score_multiplier(&self) -> (r: Ratio)
        ensures
            r == self.spec_score_multiplier(),
    {
        match self {
            BossBlind::TheWall => Ratio { num: 4, den: 1 },
            _ => Ratio { num: 2, den: 1 },
        }
    }

    pub open spec fn spec_description(self) -> Seq<char> {
        match self {
            BossBlind::TheHook => "Discards 2 random cards per hand"@,
            BossBlind::TheWall => "Extra large blind (4x chips)"@,
            BossBlind::ThePsychic => "Must play exactly 5 cards"@,
            BossBlind::TheNeedle => "Only 1 hand allowed"@,
            BossBlind::TheClub => "All Club cards are debuffed"@,
            BossBlind::TheGoad => "All Spade cards are debuffed"@,
            BossBlind::TheWindow => "All Diamond cards are debuffed"@,
            BossBlind::TheHead => "All Heart cards are debuffed"@,
        }
    }

    pub fn description(&self) -> (r: &'static str)
        ensures
            r@ == self.spec_description(),
    {
        match self {
            BossBlind::TheHook => "Discards 2 random cards per hand",
            BossBlind::TheWall => "Extra large blind (4x chips)",
            BossBlind::ThePsychic => "Must play exactly 5 cards",
            BossBlind::TheNeedle => "Only 1 hand allowed",
            BossBlind::TheClub => "All Club cards are debuffed",
            BossBlind::TheGoad => "All Spade cards are debuffed",
            BossBlind::TheWindow => "All Diamond cards are debuffed",
            BossBlind::TheHead => "All Heart cards are debuffed",
        }
    }

    pub open spec fn spec_name(self) -> Seq<char> {
        match self {
            BossBlind::TheHook => "The Hook"@,
            BossBlind::TheWall => "The Wall"@,
            BossBlind::ThePsychic => "The Psychic"@,
            BossBlind::TheNeedle => "The Needle"@,
            BossBlind::TheClub => "The Club"@,
            BossBlind::TheGoad => "The Goad"@,
            BossBlind::TheWindow => "The Window"@,
            BossBlind::TheHead => "The Head"@,
        }
    }

    /// Display name of the boss.
    pub fn name(&self) -> (r: &'static str)
        ensures
            r@ == self.spec_name(),
    {
        match self {
            BossBlind::TheHook => "The Hook",
            BossBlind::TheWall => "The Wall",
            BossBlind::ThePsychic => "The Psychic",
            BossBlind::TheNeedle => "The Needle",
            BossBlind::TheClub => "The Club",
            BossBlind::TheGoad => "The Goad",
            BossBlind::TheWindow => "The Window",
            BossBlind::TheHead => "The Head",
        }
    }
}

/// The type of blind within an ante
#[derive(Debug, Clone, Copy, PartialEq, Eq, Structural)]
pub enum BlindType {
    Small,
    Big,
    Boss(BossBlind),
}

impl BlindType {
    pub open spec fn spec_name(self) -> Seq<char> {
        match self {
            BlindType::Small => "Small Blind"@,
            BlindType::Big => "Big Blind"@,
            BlindType::Boss(boss) => boss.spec_name(),
        }
    }

    pub fn name(&self) -> (r: String)
        ensures
            r@ == self.spec_name(),
    {
        match self {
            BlindType::Small => String::from_str("Small Blind"),
            BlindType::Big => String::from_str("Big Blind"),
            BlindType::Boss(boss) => String::from_str(boss.name()),
        }
    }

    /// Factor applied to the ante's base chips: ×1 Small, ×3/2 Big, the boss's own for a boss.
    pub open spec fn spec_score_multiplier(self) -> Ratio {
        match self {
            BlindType::Small => Ratio { num: 1, den: 1 },
            BlindType::Big => Ratio { num: 3, den: 2 },
            BlindType::Boss(boss) => boss.spec_score_multiplier(),
        }
    }

    /// Score multiplier applied to the ante's base requirement
    pub fn score_multiplier(&self) -> (r: Ratio)
        ensures
            r == self.spec_score_multiplier(),
    {
        match self {
            BlindType::Small => Ratio { num: 1, den: 1 },
            BlindType::Big => Ratio { num: 3, den: 2 },
            BlindType::Boss(boss) => boss.score_multiplier(),
        }
    }

    pub open spec fn spec_reward(self) -> u32 {
        match self {
            BlindType::Small => 3,
            BlindType::Big => 4,
            BlindType::Boss(_) => 5,
        }
    }

    /// Money reward for beating this blind
    pub fn reward(&self) -> (r: u32)
        ensures
            r == self.spec_reward(),
    {
        match self {
            BlindType::Small => 3,
            BlindType::Big => 4,
            BlindType::Boss(_) => 5,
        }
    }

    pub open spec fn spec_can_skip(self) -> bool {
        !(self is Boss)
    }

    /// Can this blind be skipped?
    pub fn can_skip(&self) -> (r: bool)
        ensures
            r == self.spec_can_skip(),
    {
        match self {
            BlindType::Small | BlindType::Big => true,
            BlindType::Boss(_) => false,
        }
    }
}

/// Base chips of an ante: a fixed table up to ante 8, then 25,000 more per ante.
pub open spec fn spec_ante_base_chips(ante: u8) -> u64 {
    if ante == 1 {
        300
    } else if ante == 2 {
        800
    } else if ante == 3 {
        2_000
    } else if ante == 4 {
        5_000
    } else if ante == 5 {
        11_000
    } else if ante == 6 {
        20_000
    } else if ante == 7 {
        35_000
    } else if ante == 8 {
        50_000
    } else {
        (50_000 + (ante - 8) * 25_000) as u64
    }
}

/// Base chip requirements per ante
pub fn ante_base_chips(ante: u8) -> (r: u64)
    requires
        ante >= 1,
    ensures
        r == spec_ante_base_chips(ante),
        r <= 50_000 + 247 * 25_000,
{
    match ante {
        1 => 300,
        2 => 800,
        3 => 2_000,
        4 => 5_000,
        5 => 11_000,
        6 => 20_000,
        7 => 35_000,
        8 => 50_000,
        _ => 50_000 + (ante as u64 - 8) * 25_000,
    }
}

/// The chips to reach on a blind: the ante's base chips times the blind's multiplier,
/// rounded down.
pub open spec fn spec_score_target(ante: u8, blind_type: BlindType) -> u64 {
    let m = blind_type.spec_score_multiplier();
    (spec_ante_base_chips(ante) as int * m.num as int / m.den as int) as u64
}

/// Calculate the score target for a given ante and blind type
pub fn score_target(ante: u8, blind_type: &BlindType) -> (r: u64)
    requires
        ante >= 1,
    ensures
        r == spec_score_target(ante, *blind_type),
{
    let base = ante_base_chips(ante);
    let m = blind_type.score_multiplier();
    base * m.num / m.den
}

} // verus!
