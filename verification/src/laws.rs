//! Laws of the game, proved of the rules: what holds of every player and
//! every board, whatever the cards.

use vstd::prelude::*;
use crate::board::BoardView;
use crate::cards::CountryView;
use crate::error::BErrorView;
use crate::perm::lemma_swap_out_and_back;
use crate::turn::Action;
use crate::rules::{
    PlayerView, has_credit_card, lemma_taken_credit_card, lemma_visits_push, lemma_visits_update,
    visits,
};

verus! {

/// A play that is turned down takes nothing from the player and gives
/// nothing: the hand holds the same cards as before, the card that was
/// tried now lying at its end, and pile, score, status ledger and holding
/// slot are what they were.
pub proof fn law_refusal_keeps_cards(player: PlayerView, index: int)
    requires
        0 <= index < player.hand.len(),
    ensures
        player.rebuffed(index).holds_what(player),
        player.rebuffed(index).hand.last() == player.hand[index],
{
    lemma_swap_out_and_back(player.hand, index);
}

/// Each accepted play or discard takes exactly one card from the hand, and
/// an accepted country play puts exactly one country on the pile.
pub proof fn law_play_sizes(player: PlayerView, index: int)
    requires
        0 <= index < player.hand.len(),
    ensures
        player.country_played(index).hand.len() == player.hand.len() - 1,
        player.country_played(index).pile.len() == player.pile.len() + 1,
        player.bonus_played(index).hand.len() == player.hand.len() - 1,
        player.pile.len() > 0 ==> player.bonus_played(index).pile.len() == player.pile.len(),
        player.grey_played(index).hand.len() == player.hand.len() - 1,
        player.grey_played(index).pile == player.pile,
        player.discarded(index).hand.len() == player.hand.len() - 1,
        player.discarded(index).pile == player.pile,
{
}

/// Without a credit card, one country of a continent is all a pile takes:
/// once a player who holds no credit card has piled a country, every
/// further country of the same continent is turned down.
pub proof fn law_second_country_of_continent_fails(player: PlayerView, first: int, second: int)
    requires
        !has_credit_card(player.hand),
        0 <= first < player.hand.len(),
        player.hand[first] is Country,
        player.country_verdict(first) is None,
        0 <= second < player.country_played(first).hand.len(),
        player.country_played(first).hand[second] is Country,
        player.country_played(first).hand[second]->Country_0.continent()
            == player.hand[first]->Country_0.continent(),
    ensures
        player.country_played(first).country_verdict(second) == Some(BErrorView::SameContinent),
{
    let country = player.hand[first]->Country_0;
    lemma_taken_credit_card(player.hand, first);
    lemma_visits_push(player.pile, country, country.continent());
}

/// Piling a country of one continent does not stand in the way of another
/// continent: after it, a country of a continent that the pile had not
/// visited before is accepted.
pub proof fn law_country_of_other_continent_succeeds(player: PlayerView, first: int, second: int)
    requires
        0 <= first < player.hand.len(),
        player.hand[first] is Country,
        player.country_verdict(first) is None,
        0 <= second < player.country_played(first).hand.len(),
        player.country_played(first).hand[second] is Country,
        player.country_played(first).hand[second]->Country_0.continent()
            != player.hand[first]->Country_0.continent(),
        visits(player.pile, player.country_played(first).hand[second]->Country_0.continent())
            == 0,
    ensures
        player.country_played(first).country_verdict(second) is None,
{
    let country = player.hand[first]->Country_0;
    let other = player.country_played(first).hand[second]->Country_0;
    lemma_visits_push(player.pile, country, other.continent());
}

/// A credit card in hand lets a pile take two countries of a continent,
/// and no more: a player who holds one, and whose pile has not visited the
/// continent, piles a first and a second country of it, and is turned down
/// on every third.
pub proof fn law_credit_card_allows_two(player: PlayerView, first: int, second: int, third: int)
    requires
        has_credit_card(player.hand),
        0 <= first < player.hand.len(),
        player.hand[first] is Country,
        visits(player.pile, player.hand[first]->Country_0.continent()) == 0,
        0 <= second < player.country_played(first).hand.len(),
        player.country_played(first).hand[second] is Country,
        player.country_played(first).hand[second]->Country_0.continent()
            == player.hand[first]->Country_0.continent(),
        0 <= third < player.country_played(first).country_played(second).hand.len(),
        player.country_played(first).country_played(second).hand[third] is Country,
        player.country_played(first).country_played(second).hand[third]->Country_0.continent()
            == player.hand[first]->Country_0.continent(),
    ensures
        player.country_verdict(first) is None,
        player.country_played(first).country_verdict(second) is None,
        player.country_played(first).country_played(second).country_verdict(third) == Some(
            BErrorView::SameContinent,
        ),
{
    let one = player.hand[first]->Country_0;
    let after_one = player.country_played(first);
    let two = after_one.hand[second]->Country_0;
    let after_two = after_one.country_played(second);
    let continent = one.continent();
    lemma_taken_credit_card(player.hand, first);
    lemma_taken_credit_card(after_one.hand, second);
    lemma_visits_push(player.pile, one, continent);
    lemma_visits_push(after_one.pile, two, continent);
}

/// A bonus goes onto the top country of the pile only if that country
/// accepts it. One that is not accepted is turned down and leaves the pile,
/// bonus lists and all, as it was. One that is accepted is appended to the
/// bonus list of the top country, which grows by exactly that entry; the
/// countries below are untouched.
pub proof fn law_bonus_compatibility(player: PlayerView, index: int)
    requires
        0 <= index < player.hand.len(),
        player.hand[index] is Bonus,
        player.pile.len() > 0,
    ensures
        !player.pile.last().accepts(player.hand[index]->Bonus_0) ==> {
            &&& player.bonus_verdict(index) is Some
            &&& player.rebuffed(index).pile == player.pile
        },
        player.pile.last().accepts(player.hand[index]->Bonus_0) ==> {
            let after = player.bonus_played(index);
            &&& player.bonus_verdict(index) is None
            &&& after.pile.len() == player.pile.len()
            &&& after.pile.last().bonus == player.pile.last().bonus.push(
                player.hand[index]->Bonus_0,
            )
            &&& after.pile.last().bonus.len() == player.pile.last().bonus.len() + 1
            &&& forall|k: int| 0 <= k < player.pile.len() - 1 ==> after.pile[k] == player.pile[k]
        },
{
}

/// Attaching a bonus changes no visit count, so it never changes which
/// countries the continent cap lets the player pile.
pub proof fn law_bonus_keeps_cap(player: PlayerView, index: int, country: CountryView)
    requires
        0 <= index < player.hand.len(),
        player.hand[index] is Bonus,
        player.pile.len() > 0,
    ensures
        player.bonus_played(index).may_play_country(country) == player.may_play_country(country),
{
    lemma_taken_credit_card(player.hand, index);
    lemma_visits_update(
        player.pile,
        player.pile.len() - 1,
        player.pile.last().with_bonus(player.hand[index]->Bonus_0),
        country.continent(),
    );
}

/// An action that is turned down does not use up the turn: the player to
/// move holds what they held, and the other players, both piles of cards
/// and the turn pointer are what they were.
pub proof fn law_refused_action_keeps_board(board: BoardView, action: Action)
    requires
        board.wf(),
        board.current().admits(action),
    ensures
        board.refused(action).current().holds_what(board.current()),
        board.refused(action).turn == board.turn,
        board.refused(action).future == board.future,
        board.refused(action).past == board.past,
        board.refused(action).players.len() == board.players.len(),
        forall|seat: int|
            0 <= seat < board.players.len() && seat != board.turn ==> board.refused(
                action,
            ).players[seat] == board.players[seat],
{
    match action {
        Action::Play(index) => {
            law_refusal_keeps_cards(board.current(), index as int);
        },
        _ => {},
    }
}

impl BoardView {
    /// The board after the turn was passed on `turns` times.
    pub open spec fn advanced_by(self, turns: nat) -> BoardView
        decreases turns,
    {
        if turns == 0 {
            self
        } else {
            self.advanced_by((turns - 1) as nat).advanced()
        }
    }
}

/// Passing the turn on changes the turn pointer only, which goes round the
/// table: after `turns` passes it has moved `turns` seats on, counting
/// round from the last seat to the first.
pub proof fn law_turn_moves_round(board: BoardView, turns: nat)
    requires
        board.wf(),
    ensures
        board.advanced_by(turns) == (BoardView {
            turn: (board.turn + turns) % board.players.len(),
            ..board
        }),
        board.advanced_by(turns).wf(),
    decreases turns,
{
    let seats = board.players.len() as int;
    if turns == 0 {
        vstd::arithmetic::div_mod::lemma_small_mod(board.turn, seats as nat);
    } else {
        let fewer = (turns - 1) as nat;
        law_turn_moves_round(board, fewer);
        vstd::arithmetic::div_mod::lemma_add_mod_noop_right(1, (board.turn + fewer) as int, seats);
        vstd::arithmetic::div_mod::lemma_mod_bound((board.turn + turns) as int, seats);
    }
}

/// Once every player has had a turn, the first to move is to move again:
/// as many passes as there are players bring the board back to where it was.
pub proof fn law_turns_come_round(board: BoardView)
    requires
        board.wf(),
    ensures
        board.advanced_by(board.players.len()) == board,
{
    let seats = board.players.len() as int;
    law_turn_moves_round(board, board.players.len());
    vstd::arithmetic::div_mod::lemma_mod_add_multiples_vanish(board.turn as int, seats);
    vstd::arithmetic::div_mod::lemma_small_mod(board.turn, seats as nat);
}

} // verus!
