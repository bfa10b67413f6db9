use vstd::prelude::*;

use crate::card::PlayingCard;
use crate::run::{
    blind_cashed_out, blind_skipped, blind_started, can_buy, cards_discarded, cards_played,
    discard_used, hand_refilled, hand_used, hook_applied, is_new_run, item_bought, joker_sold,
    may_play, planet_usable, planet_used, reroll_affordable, score_added, selection_toggled,
    shop_left, shop_rerolled, tarot_usable, tarot_used, RunState,
};
use crate::scoring::{calculate_score_with_jokers, is_score_of, ScoreResult};

verus! {

/// Top-level game phase
#[derive(Debug, Clone, Copy, PartialEq, Eq, Structural)]
pub enum GamePhase {
    MainMenu,
    BlindSelect,
    Playing,
    Shop,
    GameOver { won: bool },
}

/// Actions a player can take from the screens
#[derive(Debug, Clone, Copy, PartialEq, Eq, Structural)]
pub enum ScreenAction {
    Quit,
    NewGame,
    StartBlind,
    SkipBlind,
    PlayHand,
    /// The scored hand has been shown: apply the score and resolve the round
    FinishScoring,
    Discard,
    BeatBlind,
    LeaveShop,
    BackToMenu,
    ToggleCard(usize),
    BuyShopItem(usize),
    SellJoker(usize),
    RerollShop,
    UseConsumable(usize),
}

/// A game session: the phase shown, the run if one is going, and the score of a hand that
/// has been played and not yet applied.
pub struct Session {
    pub phase: GamePhase,
    pub game: Option<RunState>,
    pub pending: Option<ScoreResult>,
}

/// The phase after an action, given whether a run is going and, for the actions that
/// resolve a round, how it ended.
pub open spec fn phase_after(
    phase: GamePhase,
    has_game: bool,
    action: ScreenAction,
    lost: bool,
    won: bool,
) -> GamePhase {
    match action {
        ScreenAction::NewGame => GamePhase::BlindSelect,
        ScreenAction::StartBlind => if has_game {
            GamePhase::Playing
        } else {
            phase
        },
        ScreenAction::FinishScoring => if lost {
            GamePhase::GameOver { won: false }
        } else {
            phase
        },
        ScreenAction::BeatBlind => if has_game {
            if won {
                GamePhase::GameOver { won: true }
            } else {
                GamePhase::Shop
            }
        } else {
            phase
        },
        ScreenAction::LeaveShop => if has_game {
            GamePhase::BlindSelect
        } else {
            phase
        },
        ScreenAction::BackToMenu => GamePhase::MainMenu,
        _ => phase,
    }
}

/// The run of a session is lost: no hands left below the target.
pub open spec fn game_lost(s: Session) -> bool {
    match s.game {
        Some(g) => g.hands_remaining == 0 && g.round_score < g.score_target,
        None => false,
    }
}

/// The run of a session is won.
pub open spec fn game_won(s: Session) -> bool {
    match s.game {
        Some(g) => g.run_won_spec(),
        None => false,
    }
}

/// `f` relates the run before and after, or there is no run before nor after.
pub open spec fn run_moved(
    prev: Option<RunState>,
    next: Option<RunState>,
    f: spec_fn(RunState, RunState) -> bool,
) -> bool {
    match prev {
        Some(g) => next matches Some(h) && f(g, h),
        None => next is None,
    }
}

/// What an action does to the run and to the pending score: each action is the matching
/// `RunState` transition. Playing a playable hand plays the selection, scores the played
/// cards against the levels, the jokers, the cards left in hand and the discards left,
/// uses up a hand and keeps the score pending; finishing adds the pending score, refills
/// the hand and lets The Hook act.
pub open spec fn run_step(prev: Session, a: ScreenAction, next: Session) -> bool {
    match a {
        ScreenAction::Quit => next.game == prev.game && next.pending == prev.pending,
        ScreenAction::NewGame => (next.game matches Some(g) && is_new_run(g)) && next.pending
            == prev.pending,
        ScreenAction::StartBlind => run_moved(
            prev.game,
            next.game,
            |g: RunState, h: RunState| blind_started(g, h),
        ) && next.pending == prev.pending,
        ScreenAction::SkipBlind => run_moved(
            prev.game,
            next.game,
            |g: RunState, h: RunState| blind_skipped(g, h),
        ) && next.pending == prev.pending,
        ScreenAction::PlayHand => match prev.game {
            Some(g) => if may_play(g) && prev.pending is None {
                next.game matches Some(h) && next.pending matches Some(r) && exists|
                    g1: RunState,
                    cards: Seq<PlayingCard>,
                |
                    #[trigger] cards_played(g, g1, cards) && hand_used(g1, h) && is_score_of(
                        r,
                        cards,
                        g1.hand_levels@,
                        g1.jokers@,
                        g1.hand@,
                        g1.discards_remaining,
                    )
            } else {
                next.game == prev.game && next.pending == prev.pending
            },
            None => next.game is None && next.pending == prev.pending,
        },
        ScreenAction::FinishScoring => next.pending is None && match (prev.game, prev.pending) {
            (Some(g), Some(r)) => next.game matches Some(h) && exists|g1: RunState, g2: RunState|
                score_added(g, g1, r.final_score) && #[trigger] hand_refilled(g1, g2)
                    && hook_applied(g2, h),
            _ => next.game == prev.game,
        },
        ScreenAction::Discard => next.pending == prev.pending && match prev.game {
            Some(g) => if g.discards_remaining > 0 && g.selected_indices@.len() > 0 {
                next.game matches Some(h) && exists|g1: RunState, cards: Seq<PlayingCard>|
                    discard_used(g, g1, true) && #[trigger] cards_discarded(g1, h, cards)
            } else {
                next.game == prev.game
            },
            None => next.game is None,
        },
        ScreenAction::BeatBlind => run_moved(
            prev.game,
            next.game,
            |g: RunState, h: RunState| blind_cashed_out(g, h),
        ) && next.pending == prev.pending,
        ScreenAction::LeaveShop => run_moved(
            prev.game,
            next.game,
            |g: RunState, h: RunState| shop_left(g, h),
        ) && next.pending == prev.pending,
        ScreenAction::BackToMenu => next.game is None && next.pending == prev.pending,
        ScreenAction::ToggleCard(i) => run_moved(
            prev.game,
            next.game,
            |g: RunState, h: RunState| selection_toggled(g, h, i),
        ) && next.pending == prev.pending,
        ScreenAction::BuyShopItem(i) => run_moved(
            prev.game,
            next.game,
            |g: RunState, h: RunState| item_bought(g, h, i, can_buy(g, i as int)),
        ) && next.pending == prev.pending,
        ScreenAction::SellJoker(i) => run_moved(
            prev.game,
            next.game,
            |g: RunState, h: RunState| joker_sold(g, h, i, i < g.jokers@.len()),
        ) && next.pending == prev.pending,
        ScreenAction::RerollShop => run_moved(
            prev.game,
            next.game,
            |g: RunState, h: RunState| shop_rerolled(g, h, reroll_affordable(g)),
        ) && next.pending == prev.pending,
        ScreenAction::UseConsumable(i) => run_moved(
            prev.game,
            next.game,
            |g: RunState, h: RunState|
                if planet_usable(g, i) {
                    planet_used(g, h, i, true)
                } else {
                    tarot_used(g, h, i, tarot_usable(g, i))
                },
        ) && next.pending == prev.pending,
    }
}

/// How an action moves a session from `prev` to `next`: the run and the pending score
/// follow `run_step`, and the phase follows `phase_after` (a lost or won round only when
/// the run really is lost or won). No action leaves everything as it was.
pub open spec fn session_step(prev: Session, action: Option<ScreenAction>, next: Session) -> bool {
    match action {
        None => next.phase == prev.phase && next.game == prev.game && next.pending
            == prev.pending,
        Some(a) => {
            &&& run_step(prev, a, next)
            &&& a == ScreenAction::Quit ==> next.phase == prev.phase
            &&& a != ScreenAction::Quit ==> exists|lost: bool, won: bool|
                #[trigger] phase_after(prev.phase, prev.game is Some, a, lost, won) == next.phase
                    && (lost ==> game_lost(next)) && (won ==> game_won(next))
        },
    }
}

impl Session {
    /// Every run of the session keeps its invariant.
    pub open spec fn wf(&self) -> bool {
        self.game matches Some(g) ==> g.wf()
    }

    /// A session on the main menu with no run.
    pub fn new() -> (r: Self)
        ensures
            r.phase == GamePhase::MainMenu,
            r.game is None,
            r.pending is None,
            r.wf(),
    {
        Session { phase: GamePhase::MainMenu, game: None, pending: None }
    }

    /// Carry out an action; true when the player quits. Playing a hand scores it against
    /// the jokers, the cards left in hand and the discards left, uses up a hand and holds
    /// the score until `FinishScoring` adds it, refills the hand, lets The Hook act and
    /// ends the run when the round is lost.
    pub fn process_action(&mut self, action: Option<ScreenAction>) -> (quit: bool)
        requires
            old(self).wf(),
        ensures
            final(self).wf(),
            quit == (action == Some(ScreenAction::Quit)),
            session_step(*old(self), action, *final(self)),
    {
        let a = match action {
            Some(a) => a,
            None => {
                return false;
            },
        };
        let ghost old_phase = self.phase;
        let ghost had_game = self.game is Some;
        match a {
            ScreenAction::Quit => {
                return true;
            },
            ScreenAction::NewGame => {
                self.game = Some(RunState::new());
                self.phase = GamePhase::BlindSelect;
            },
            ScreenAction::StartBlind => {
                if let Some(game) = &mut self.game {
                    game.start_blind();
                    self.phase = GamePhase::Playing;
                }
            },
            ScreenAction::SkipBlind => {
                if let Some(game) = &mut self.game {
                    game.skip_blind();
                }
            },
            ScreenAction::PlayHand => {
                if let Some(game) = &mut self.game {
                    if game.can_play() && self.pending.is_none() {
                        let played = game.play_selected();
                        let result = calculate_score_with_jokers(
                            played.as_slice(),
                            &game.hand_levels,
                            game.jokers.as_slice(),
                            game.hand.as_slice(),
                            game.discards_remaining,
                        );
                        game.use_hand();
                        self.pending = Some(result);
                    }
                }
            },
            ScreenAction::FinishScoring => {
                let pending = self.pending.take();
                if let Some(game) = &mut self.game {
                    if let Some(result) = pending {
                        game.add_score(result.final_score);
                        game.draw_to_hand_size();
                        game.apply_hook_effect();
                        if !game.blind_beaten() && game.round_lost() {
                            self.phase = GamePhase::GameOver { won: false };
                            assert(phase_after(old_phase, had_game, a, true, false) == self.phase);
                            return false;
                        }
                    }
                }
                assert(phase_after(old_phase, had_game, a, false, false) == self.phase);
            },
            ScreenAction::Discard => {
                if let Some(game) = &mut self.game {
                    if game.can_discard() {
                        game.use_discard();
                        game.discard_selected();
                    }
                }
            },
            ScreenAction::BeatBlind => {
                if let Some(game) = &mut self.game {
                    game.beat_blind();
                    if game.run_won() {
                        self.phase = GamePhase::GameOver { won: true };
                        assert(phase_after(old_phase, had_game, a, false, true) == self.phase);
                        return false;
                    } else {
                        self.phase = GamePhase::Shop;
                    }
                }
            },
            ScreenAction::LeaveShop => {
                if let Some(game) = &mut self.game {
                    game.leave_shop();
                    self.phase = GamePhase::BlindSelect;
                }
            },
            ScreenAction::BackToMenu => {
                self.game = None;
                self.phase = GamePhase::MainMenu;
            },
            ScreenAction::ToggleCard(idx) => {
                if let Some(game) = &mut self.game {
                    game.toggle_select(idx);
                }
            },
            ScreenAction::BuyShopItem(idx) => {
                if let Some(game) = &mut self.game {
                    game.buy_shop_item(idx);
                }
            },
            ScreenAction::SellJoker(idx) => {
                if let Some(game) = &mut self.game {
                    game.sell_joker(idx);
                }
            },
            ScreenAction::RerollShop => {
                if let Some(game) = &mut self.game {
                    game.reroll_shop();
                }
            },
            ScreenAction::UseConsumable(idx) => {
                if let Some(game) = &mut self.game {
                    if !game.use_planet(idx) {
                        game.use_tarot(idx);
                    }
                }
            },
        }
        assert(phase_after(old_phase, had_game, a, false, false) == self.phase);
        false
    }
}

} // verus!
