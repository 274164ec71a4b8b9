//! The board: the undealt cards, the discard pile, the players in turn
//! order and the turn pointer, with the dealing and sequencing of a game.

use rand::seq::SliceRandom;
use vstd::prelude::*;
use crate::cards::{Card, CardKind, CardView, card_views};
use crate::deck::{DECK_SIZE, full_deck};
use crate::error::{BError, BErrorView};
use crate::perm::{lemma_map_same_items, same_items};
use crate::player::Player;
use crate::rules::PlayerView;
use crate::status::{StatusType, after_turn, has_miss, pending_miss};
use crate::turn::{Action, TurnState};

verus! {

/// The number of cards dealt to each player.
pub const HAND_SIZE: usize = 5;

/// What a board is, as plain values.
pub struct BoardView {
    pub future: Seq<CardView>,
    pub past: Seq<CardView>,
    pub players: Seq<PlayerView>,
    pub turn: nat,
}

/// The views of a row of players, in turn order.
pub open spec fn player_views(players: Seq<Player>) -> Seq<PlayerView> {
    players.map_values(|player: Player| player@)
}

/// The hands of a row of players laid end to end, in turn order.
pub open spec fn hands(players: Seq<PlayerView>) -> Seq<CardView>
    decreases players.len(),
{
    if players.len() == 0 {
        Seq::empty()
    } else {
        hands(players.drop_last()) + players.last().hand
    }
}

/// The hand dealt to the player at `seat` from `deck`: each player in turn
/// gets the next `HAND_SIZE` cards from the front.
pub open spec fn dealt_hand(deck: Seq<CardView>, seat: int) -> Seq<CardView> {
    deck.subrange(seat * HAND_SIZE, seat * HAND_SIZE + HAND_SIZE)
}

impl BoardView {
    /// The turn pointer names a player.
    pub open spec fn wf(self) -> bool {
        self.turn < self.players.len()
    }

    /// The player whose turn it is.
    pub open spec fn current(self) -> PlayerView {
        self.players[self.turn as int]
    }

    /// The board at the start of a game for `num_players` players, dealt
    /// from `deck`: the hands come off the front, the rest is the future
    /// pile, nothing is discarded and the first player is to move.
    pub open spec fn dealt(deck: Seq<CardView>, num_players: nat) -> BoardView {
        BoardView {
            future: deck.skip(num_players * HAND_SIZE),
            past: Seq::empty(),
            players: Seq::new(num_players, |seat: int| PlayerView::fresh(dealt_hand(deck, seat))),
            turn: 0,
        }
    }

    /// The board with another player in the seat of the player to move.
    pub open spec fn with_current(self, player: PlayerView) -> BoardView {
        BoardView { players: self.players.update(self.turn as int, player), ..self }
    }

    /// The board with one more entry on the status ledger of the player at `seat`.
    pub open spec fn with_status(self, seat: int, status: StatusType) -> BoardView {
        BoardView {
            players: self.players.update(seat, self.players[seat].with_status(status)),
            ..self
        }
    }

    /// The board with one more card on the discard pile.
    pub open spec fn with_discard(self, card: CardView) -> BoardView {
        BoardView { past: self.past.push(card), ..self }
    }

    /// The board with the turn passed on: after the last player comes the first.
    pub open spec fn advanced(self) -> BoardView {
        BoardView { turn: (self.turn + 1) % self.players.len(), ..self }
    }

    /// The board after an accepted action of the player to move. A
    /// discarded card goes onto the discard pile.
    pub open spec fn acted(self, action: Action) -> BoardView {
        let board = self.with_current(self.current().acted(action));
        match action {
            Action::Discard(index) => board.with_discard(self.current().hand[index as int]),
            _ => board,
        }
    }

    /// The board after an action of the player to move was turned down.
    pub open spec fn refused(self, action: Action) -> BoardView {
        self.with_current(self.current().refused(action))
    }

    /// The board after an action of the player to move was put to the rules.
    pub open spec fn resolved(self, action: Action) -> BoardView {
        if self.current().verdict(action) is None {
            self.acted(action)
        } else {
            self.refused(action)
        }
    }

    /// The board after the ledger of the player to move was asked for the turn.
    pub open spec fn entered(self) -> BoardView {
        self.with_current(self.current().with_ledger(after_turn(self.current().status)))
    }

    /// The state a turn is in after one step from `state`.
    pub open spec fn next_state(self, state: TurnState, action: Option<Action>) -> TurnState {
        match state {
            TurnState::AwaitingAction => match action {
                Some(a) => TurnState::after_attempt(self.current().verdict(a) is None),
                None => TurnState::AwaitingAction,
            },
            TurnState::TurnSkipped => TurnState::TurnComplete,
            TurnState::TurnComplete => TurnState::TurnComplete,
        }
    }

    /// Why a step from `state` is turned down, or `None` where it is not:
    /// only an action that was awaited can be.
    pub open spec fn objection(self, state: TurnState, action: Option<Action>) -> Option<
        BErrorView,
    > {
        match (state, action) {
            (TurnState::AwaitingAction, Some(a)) => self.current().verdict(a),
            _ => None,
        }
    }

    /// The board after one step of a turn from `state`. A turn that
    /// completes by this step passes to the next player.
    pub open spec fn stepped(self, state: TurnState, action: Option<Action>) -> BoardView {
        match state {
            TurnState::AwaitingAction => match action {
                Some(a) => if self.current().verdict(a) is None {
                    self.acted(a).advanced()
                } else {
                    self.refused(a)
                },
                None => self,
            },
            TurnState::TurnSkipped => self.advanced(),
            TurnState::TurnComplete => self,
        }
    }

    /// Every card that is in a hand or in the future pile.
    pub open spec fn cards_in_play(self) -> Seq<CardView> {
        hands(self.players) + self.future
    }
}

/// Dealing moves the first cards of the deck into the hands, in order.
pub proof fn lemma_hands_dealt(deck: Seq<CardView>, num_players: nat)
    requires
        num_players * HAND_SIZE <= deck.len(),
    ensures
        hands(BoardView::dealt(deck, num_players).players) == deck.take(num_players * HAND_SIZE),
    decreases num_players,
{
    let players = BoardView::dealt(deck, num_players).players;
    if num_players == 0 {
        assert(deck.take(0) =~= Seq::empty());
    } else {
        let fewer = (num_players - 1) as nat;
        lemma_hands_dealt(deck, fewer);
        assert(players.drop_last() =~= BoardView::dealt(deck, fewer).players);
        assert(players.last().hand == dealt_hand(deck, num_players - 1));
        assert(deck.take(fewer * HAND_SIZE) + dealt_hand(deck, num_players - 1) =~= deck.take(
            num_players * HAND_SIZE,
        ));
    }
}

/// Dealing neither loses nor copies a card: the hands and the future pile
/// together are the deck, card for card and in order.
pub proof fn lemma_deal_keeps_cards(deck: Seq<CardView>, num_players: nat)
    requires
        num_players * HAND_SIZE <= deck.len(),
    ensures
        BoardView::dealt(deck, num_players).cards_in_play() == deck,
{
    lemma_hands_dealt(deck, num_players);
    assert(deck.take(num_players * HAND_SIZE) + deck.skip(num_players * HAND_SIZE) =~= deck);
}

/// The state of a game.
pub struct Board {
    future: Vec<Card>,
    past: Vec<Card>,
    pub players: Vec<Player>,
    turn: usize,
}

impl View for Board {
    type V = BoardView;

    closed spec fn view(&self) -> BoardView {
        BoardView {
            future: card_views(self.future@),
            past: card_views(self.past@),
            players: player_views(self.players@),
            turn: self.turn as nat,
        }
    }
}

/// Shuffles the deck in place with `rand`'s `SliceRandom::shuffle`, drawing
/// from the thread-local generator that `rand::rng` hands out. The shuffle
/// only ever exchanges two cards, so the deck afterwards holds the cards it
/// held before, each as often; nothing is claimed of their order. Taken on
/// trust, not proved. (`rand::rng` gives up where the operating system has
/// no entropy to seed it with, whatever the deck.)
#[verifier::external_body]
fn shuffle(deck: &mut Vec<Card>)
    ensures
        same_items(final(deck)@, old(deck)@),
{
    let mut rng = rand::rng();
    deck.shuffle(&mut rng);
}

impl Board {
    /// Deals a game for `num_players` players from `deck` as it lies: each
    /// player in turn gets the next `HAND_SIZE` cards from the front, and
    /// the rest becomes the future pile.
    pub fn deal(deck: Vec<Card>, num_players: usize) -> (board: Board)
        requires
            1 <= num_players,
            HAND_SIZE * num_players < deck@.len(),
        ensures
            board@ == BoardView::dealt(card_views(deck@), num_players as nat),
            board@.wf(),
            board@.cards_in_play() == card_views(deck@),
    {
        let ghost all = card_views(deck@);
        let mut rest = deck;
        let mut players: Vec<Player> = Vec::new();
        let mut seat: usize = 0;
        assert(all.skip(0) =~= all);
        while seat < num_players
            invariant
                seat <= num_players,
                HAND_SIZE * num_players < all.len(),
                card_views(rest@) == all.skip(seat * HAND_SIZE),
                players@.len() == seat,
                forall|k: int|
                    0 <= k < seat ==> (#[trigger] players@[k])@ == PlayerView::fresh(
                        dealt_hand(all, k),
                    ),
            decreases num_players - seat,
        {
            assert(HAND_SIZE == 5);
            assert(card_views(rest@).len() == rest@.len());
            let ghost whole = rest@;
            let tail = rest.split_off(HAND_SIZE);
            assert(card_views(rest@) =~= card_views(whole).take(5));
            assert(card_views(tail@) =~= card_views(whole).skip(5));
            assert(card_views(rest@) =~= dealt_hand(all, seat as int));
            assert(card_views(tail@) =~= all.skip((seat + 1) * HAND_SIZE));
            players.push(Player::from_hand(rest));
            rest = tail;
            seat += 1;
        }
        let board = Board { future: rest, past: Vec::new(), players, turn: 0 };
        proof {
            assert(board@.players =~= BoardView::dealt(all, num_players as nat).players);
            assert(board@.past =~= Seq::empty());
            lemma_deal_keeps_cards(all, num_players as nat);
        }
        board
    }

    /// Starts a game for `num_players` players: a fresh deck is shuffled
    /// and dealt. The board is a deal of the cards in play, and those are
    /// the catalogue, rearranged: every card of it is in one hand or in the
    /// future pile, as often as the catalogue holds it.
    pub fn new_game(num_players: usize) -> (board: Board)
        requires
            1 <= num_players,
            HAND_SIZE * num_players < DECK_SIZE,
        ensures
            board@ == BoardView::dealt(board@.cards_in_play(), num_players as nat),
            same_items(board@.cards_in_play(), full_deck()),
            board@.cards_in_play().len() == DECK_SIZE,
            board@.wf(),
    {
        let mut deck = Card::deck();
        let ghost fresh = deck@;
        shuffle(&mut deck);
        proof {
            lemma_map_same_items(deck@, fresh, |card: Card| card@);
            vstd::seq_lib::to_multiset_len(deck@);
            vstd::seq_lib::to_multiset_len(fresh);
        }
        Board::deal(deck, num_players)
    }

    /// Passes the turn to the next player; after the last comes the first.
    pub fn next_turn(&mut self)
        requires
            old(self)@.wf(),
        ensures
            final(self)@ == old(self)@.advanced(),
            final(self)@.wf(),
    {
        proof {
            let seats = self.players@.len() as int;
            assert(old(self)@.players.len() == seats);
            if self.turn + 1 == seats {
                vstd::arithmetic::div_mod::lemma_mod_self_0(seats);
            } else {
                vstd::arithmetic::div_mod::lemma_small_mod((self.turn + 1) as nat, seats as nat);
            }
        }
        if self.turn == self.players.len() - 1 {
            self.turn = 0;
        } else {
            self.turn += 1;
        }
    }

    /// Puts a status on the player at `player_index`, whoever is to move.
    pub fn add_status(&mut self, player_index: usize, status: StatusType)
        requires
            player_index < old(self)@.players.len(),
        ensures
            final(self)@ == old(self)@.with_status(player_index as int, status),
    {
        self.players[player_index].add_status(status);
        assert(player_views(self.players@) =~= old(self)@.with_status(
            player_index as int,
            status,
        ).players);
    }

    /// Puts a card on the discard pile.
    pub fn discard(&mut self, card: Card)
        ensures
            final(self)@ == old(self)@.with_discard(card@),
    {
        self.past.push(card);
        assert(card_views(self.past@) =~= old(self)@.past.push(card@));
    }

    /// Discards the card at `card_index` of the hand of the player to
    /// move. The last card of the hand takes its place.
    pub fn player_discard(&mut self, card_index: usize)
        requires
            old(self)@.wf(),
            card_index < old(self)@.current().hand.len(),
        ensures
            final(self)@ == old(self)@.acted(Action::Discard(card_index)),
            final(self)@.wf(),
    {
        let card = self.players[self.turn].take_card(card_index);
        assert(player_views(self.players@) =~= old(self)@.players.update(
            self.turn as int,
            old(self)@.current().discarded(card_index as int),
        ));
        self.discard(card);
    }

    /// Plays the country at `card_index` of the hand of the player to move.
    pub fn manual_play_country(&mut self, card_index: usize) -> (res: Result<(), BError>)
        requires
            old(self)@.wf(),
            card_index < old(self)@.current().hand.len(),
            old(self)@.current().hand[card_index as int] is Country,
        ensures
            final(self)@ == old(self)@.resolved(Action::Play(card_index)),
            res is Ok <==> old(self)@.current().verdict(Action::Play(card_index)) is None,
            res matches Err(e) ==> old(self)@.current().verdict(Action::Play(card_index))
                == Some(e@),
    {
        let res = self.players[self.turn].play_country(card_index);
        proof {
            let now = match res {
                Ok(()) => old(self)@.current().country_played(card_index as int),
                Err(_) => old(self)@.current().rebuffed(card_index as int),
            };
            assert(player_views(self.players@) =~= old(self)@.players.update(
                self.turn as int,
                now,
            ));
        }
        res
    }

    /// Plays the grey card at `card_index` of the hand of the player to move.
    pub fn manual_play_grey(&mut self, card_index: usize) -> (res: Result<(), BError>)
        requires
            old(self)@.wf(),
            card_index < old(self)@.current().hand.len(),
            old(self)@.current().hand[card_index as int] is Grey,
        ensures
            final(self)@ == old(self)@.resolved(Action::Play(card_index)),
            res is Ok <==> old(self)@.current().verdict(Action::Play(card_index)) is None,
            res matches Err(e) ==> old(self)@.current().verdict(Action::Play(card_index))
                == Some(e@),
    {
        let res = self.players[self.turn].play_grey(card_index);
        proof {
            assert(player_views(self.players@) =~= old(self)@.players.update(
                self.turn as int,
                old(self)@.current().grey_played(card_index as int),
            ));
        }
        res
    }

    /// Attaches the bonus at `card_index` of the hand of the player to
    /// move to the top country of their pile.
    pub fn manual_play_bonus(&mut self, card_index: usize) -> (res: Result<(), BError>)
        requires
            old(self)@.wf(),
            card_index < old(self)@.current().hand.len(),
            old(self)@.current().hand[card_index as int] is Bonus,
        ensures
            final(self)@ == old(self)@.resolved(Action::Play(card_index)),
            res is Ok <==> old(self)@.current().verdict(Action::Play(card_index)) is None,
            res matches Err(e) ==> old(self)@.current().verdict(Action::Play(card_index))
                == Some(e@),
    {
        let res = self.players[self.turn].play_bonus(card_index);
        proof {
            let now = match res {
                Ok(()) => old(self)@.current().bonus_played(card_index as int),
                Err(_) => old(self)@.current().rebuffed(card_index as int),
            };
            assert(player_views(self.players@) =~= old(self)@.players.update(
                self.turn as int,
                now,
            ));
        }
        match res {
            Ok(()) => Ok(()),
            Err(reason) => Err(BError::Custom(reason)),
        }
    }

    /// Lets the player to move go home.
    pub fn manual_go_home(&mut self) -> (res: Result<(), BError>)
        requires
            old(self)@.wf(),
            old(self)@.current().admits(Action::GoHome),
        ensures
            final(self)@ == old(self)@.resolved(Action::GoHome),
            res is Ok <==> old(self)@.current().verdict(Action::GoHome) is None,
            res matches Err(e) ==> old(self)@.current().verdict(Action::GoHome) == Some(e@),
    {
        let res = self.players[self.turn].go_home();
        proof {
            let now = match res {
                Ok(()) => old(self)@.current().gone_home(),
                Err(_) => old(self)@.current(),
            };
            assert(player_views(self.players@) =~= old(self)@.players.update(
                self.turn as int,
                now,
            ));
        }
        res
    }

    /// Puts one action of the player to move to the rules. An accepted
    /// action is carried out; one that is turned down leaves the board as
    /// it was, but for the place of the card that was tried.
    pub fn manual_try_turn(&mut self, action: Action) -> (res: Result<(), BError>)
        requires
            old(self)@.wf(),
            old(self)@.current().admits(action),
        ensures
            final(self)@ == old(self)@.resolved(action),
            final(self)@.wf(),
            res is Ok <==> old(self)@.current().verdict(action) is None,
            res matches Err(e) ==> old(self)@.current().verdict(action) == Some(e@),
    {
        match action {
            Action::Discard(card_index) => {
                self.player_discard(card_index);
                Ok(())
            },
            Action::GoHome => self.manual_go_home(),
            Action::Play(card_index) => {
                let kind = self.players[self.turn].kind_at(card_index);
                match kind {
                    CardKind::Country => self.manual_play_country(card_index),
                    CardKind::Bonus => self.manual_play_bonus(card_index),
                    CardKind::Grey => self.manual_play_grey(card_index),
                    _ => {
                        assert(old(self)@.players.update(
                            old(self)@.turn as int,
                            old(self)@.current(),
                        ) =~= old(self)@.players);
                        Ok(())
                    },
                }
            },
        }
    }

    /// Opens the turn of the player to move by asking their status ledger
    /// for it. A missed go eats the turn; otherwise an action is awaited.
    pub fn enter_turn(&mut self) -> (state: TurnState)
        requires
            old(self)@.wf(),
            pending_miss(old(self)@.current().status) != Some(0u8),
        ensures
            state == TurnState::opening(has_miss(old(self)@.current().status)),
            final(self)@ == old(self)@.entered(),
            final(self)@.wf(),
    {
        let skipped = self.players[self.turn].no_turn();
        assert(player_views(self.players@) =~= old(self)@.entered().players);
        if skipped {
            TurnState::TurnSkipped
        } else {
            TurnState::AwaitingAction
        }
    }

    /// Takes a turn one step on. While an action is awaited, `action` is
    /// put to the rules: accepted, it completes the turn; turned down, it
    /// is answered with the reason and the turn still awaits an action. A
    /// skipped turn completes without an action. A turn that completes
    /// passes to the next player; a completed turn stays as it is.
    pub fn manual_turn(&mut self, state: TurnState, action: Option<Action>) -> (res: Result<
        TurnState,
        BError,
    >)
        requires
            old(self)@.wf(),
            state is AwaitingAction ==> (action matches Some(a) ==> old(self)@.current().admits(a)),
        ensures
            final(self)@ == old(self)@.stepped(state, action),
            final(self)@.wf(),
            match res {
                Ok(next) => next == old(self)@.next_state(state, action) && old(self)@.objection(
                    state,
                    action,
                ) is None,
                Err(e) => old(self)@.objection(state, action) == Some(e@),
            },
    {
        match state {
            TurnState::AwaitingAction => match action {
                Some(a) => match self.manual_try_turn(a) {
                    Ok(()) => {
                        self.next_turn();
                        Ok(TurnState::TurnComplete)
                    },
                    Err(e) => Err(e),
                },
                None => Ok(TurnState::AwaitingAction),
            },
            TurnState::TurnSkipped => {
                self.next_turn();
                Ok(TurnState::TurnComplete)
            },
            TurnState::TurnComplete => Ok(TurnState::TurnComplete),
        }
    }

    /// Whether the game goes on: it does while undealt cards remain.
    pub fn in_play(&self) -> (yes: bool)
        ensures
            yes == (self@.future.len() > 0),
    {
        !self.future.is_empty()
    }

    /// Opens the next turn of the game, if the game goes on: the answer is
    /// the state in which the turn of the player to move opens, or `None`,
    /// with the board untouched, once no undealt cards remain.
    pub fn manual_game(&mut self) -> (opened: Option<TurnState>)
        requires
            old(self)@.wf(),
            old(self)@.future.len() > 0 ==> pending_miss(old(self)@.current().status) != Some(0u8),
        ensures
            final(self)@.wf(),
            old(self)@.future.len() == 0 ==> opened is None && final(self)@ == old(self)@,
            old(self)@.future.len() > 0 ==> final(self)@ == old(self)@.entered() && opened == Some(
                TurnState::opening(has_miss(old(self)@.current().status)),
            ),
    {
        if self.in_play() {
            Some(self.enter_turn())
        } else {
            None
        }
    }

    /// The seat of the player to move.
    pub fn turn(&self) -> (turn: usize)
        ensures
            turn == self@.turn,
    {
        self.turn
    }

    /// The player to move.
    pub fn current_player(&self) -> (player: &Player)
        requires
            self@.wf(),
        ensures
            player@ == self@.current(),
    {
        &self.players[self.turn]
    }

    /// The undealt cards.
    pub fn future(&self) -> (future: &Vec<Card>)
        ensures
            card_views(future@) == self@.future,
    {
        &self.future
    }

    /// The discarded cards, the latest last.
    pub fn past(&self) -> (past: &Vec<Card>)
        ensures
            card_views(past@) == self@.past,
    {
        &self.past
    }
}

} // verus!
