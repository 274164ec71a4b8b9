//! A turn: what a player may ask for, and how the rules answer.

use vstd::prelude::*;
use crate::cards::CardView;
use crate::error::BErrorView;
use crate::rules::{PlayerView, pile_value};

verus! {

/// What the player to move asks for. Indices count the hand from 0.
#[derive(Debug, Clone, Copy, PartialEq, Eq, Structural)]
pub enum Action {
    /// Play the card at this place of the hand.
    Play(usize),
    /// Discard the card at this place of the hand.
    Discard(usize),
    /// Go home.
    GoHome,
}

/// Where a turn stands.
#[derive(Debug, Clone, Copy, PartialEq, Eq, Structural)]
pub enum TurnState {
    /// The player to move owes an action.
    AwaitingAction,
    /// A missed go has eaten the turn; no action is taken.
    TurnSkipped,
    /// The turn is over and the next player is to move.
    TurnComplete,
}

impl PlayerView {
    /// Whether the action can be put to the rules at all: an index must
    /// name a card of the hand, and a score must be able to hold what going
    /// home would add.
    pub open spec fn admits(self, action: Action) -> bool {
        match action {
            Action::Play(index) => index < self.hand.len(),
            Action::Discard(index) => index < self.hand.len(),
            Action::GoHome => self.may_go_home() ==> self.score + pile_value(self.pile)
                <= u32::MAX,
        }
    }

    /// Why the card at `index` cannot be played, or `None` where it can. A
    /// country answers to the continent cap, a bonus to the top country of
    /// the pile; a grey card can always be played, and an advice or special
    /// card is accepted and does nothing.
    pub open spec fn play_verdict(self, index: int) -> Option<BErrorView> {
        match self.hand[index] {
            CardView::Country(_) => self.country_verdict(index),
            CardView::Bonus(_) => match self.bonus_verdict(index) {
                Some(reason) => Some(BErrorView::Custom(reason)),
                None => None,
            },
            CardView::Grey(_) => self.grey_verdict(index),
            _ => None,
        }
    }

    /// The player after the card at `index` was played with success.
    pub open spec fn card_played(self, index: int) -> PlayerView {
        match self.hand[index] {
            CardView::Country(_) => self.country_played(index),
            CardView::Bonus(_) => self.bonus_played(index),
            CardView::Grey(_) => self.grey_played(index),
            _ => self,
        }
    }

    /// Why the action is turned down, or `None` where it is accepted.
    pub open spec fn verdict(self, action: Action) -> Option<BErrorView> {
        match action {
            Action::Play(index) => self.play_verdict(index as int),
            Action::Discard(_) => None,
            Action::GoHome => self.home_verdict(),
        }
    }

    /// The player after an action that was accepted.
    pub open spec fn acted(self, action: Action) -> PlayerView {
        match action {
            Action::Play(index) => self.card_played(index as int),
            Action::Discard(index) => self.discarded(index as int),
            Action::GoHome => self.gone_home(),
        }
    }

    /// The player after an action that was turned down: a card that was
    /// tried has gone out of the hand and come back; nothing else differs.
    pub open spec fn refused(self, action: Action) -> PlayerView {
        match action {
            Action::Play(index) => self.rebuffed(index as int),
            _ => self,
        }
    }
}

impl PlayerView {
    /// The player after an attempt to attach the card at `index` as a
    /// bonus, whatever came of it.
    pub open spec fn bonus_tried(self, index: int) -> PlayerView {
        if self.bonus_verdict(index) is None {
            self.bonus_played(index)
        } else if 0 <= index < self.hand.len() {
            self.rebuffed(index)
        } else {
            self
        }
    }

    /// The player after one attempt at a bonus play for each place of the
    /// hand from `from` up to `to`, in rising order. The hand changes as
    /// the attempts go: a place counts in the hand as it then is.
    pub open spec fn bonuses_swept(self, from: int, to: int) -> PlayerView
        decreases to - from,
    {
        if from >= to {
            self
        } else {
            self.bonus_tried(from).bonuses_swept(from + 1, to)
        }
    }

    /// The player after an attempt to pile the card at `index`, whatever
    /// came of it. A place beyond the hand, or a card that is no country,
    /// is passed over.
    pub open spec fn country_tried(self, index: int) -> PlayerView {
        if !(0 <= index < self.hand.len() && self.hand[index] is Country) {
            self
        } else if self.country_verdict(index) is None {
            self.country_played(index)
        } else {
            self.rebuffed(index)
        }
    }

    /// The player after one attempt at a country play for each place of the
    /// hand from `from` up to `to`, in rising order, each followed by a
    /// sweep of bonus attempts over the whole hand.
    pub open spec fn countries_swept(self, from: int, to: int) -> PlayerView
        decreases to - from,
    {
        if from >= to {
            self
        } else {
            let tried = self.country_tried(from);
            tried.bonuses_swept(0, tried.hand.len() as int).countries_swept(from + 1, to)
        }
    }
}

impl TurnState {
    /// The state a turn opens in, given whether a missed go eats it.
    pub open spec fn opening(skipped: bool) -> TurnState {
        if skipped {
            TurnState::TurnSkipped
        } else {
            TurnState::AwaitingAction
        }
    }

    /// The state after an attempt at an action while one was awaited.
    pub open spec fn after_attempt(accepted: bool) -> TurnState {
        if accepted {
            TurnState::TurnComplete
        } else {
            TurnState::AwaitingAction
        }
    }
}

} // verus!
