pub mod blind;
pub mod card;
pub mod consumable;
pub mod deck;
pub mod hand;
mod rng;
pub mod run;
pub mod joker;
pub mod scoring;
pub mod session;
pub mod shop;
pub mod text;

pub use card::{Edition, Enhancement, PlayingCard, Rank, Ratio, Seal, Suit};
pub use hand::{detect_hand, HandResult, PokerHand};
pub use joker::{evaluate_joker, Joker, JokerContext, JokerEffect, JokerRarity, JokerType};
pub use scoring::{calculate_score, calculate_score_with_jokers, HandLevels, ScoreResult, ScoreStep};
pub use blind::{ante_base_chips, score_target, BlindType, BossBlind};
pub use consumable::{Consumable, ConsumableType, PlanetCard, TarotCard};
pub use deck::Deck;
pub use shop::{Shop, ShopItem};
pub use run::{AntePhase, BlindOutcome, RewardBreakdown, RunState};
pub use session::{GamePhase, ScreenAction, Session};
