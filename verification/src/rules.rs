//! The rules of play over plain values: what a player holds, which plays are
//! legal, and what each play leaves behind.

use vstd::prelude::*;
use crate::cards::{Bonus, CardView, Continent, CountryView, Special};
use crate::error::BErrorView;
use crate::perm::same_items;
use crate::status::StatusType;

verus! {

/// The test that a country lies in `continent`.
pub open spec fn lies_in(continent: Continent) -> spec_fn(CountryView) -> bool {
    |country: CountryView| country.continent() == continent
}

/// How many countries of `continent` the pile holds.
pub open spec fn visits(pile: Seq<CountryView>, continent: Continent) -> nat {
    pile.filter(lies_in(continent)).len()
}

/// Whether the hand holds a credit card.
pub open spec fn has_credit_card(hand: Seq<CardView>) -> bool {
    hand.contains(CardView::Special(Special::CreditCard))
}

/// How many countries of one continent a pile may take: two for a player who
/// holds a credit card, one otherwise.
pub open spec fn continent_cap(hand: Seq<CardView>) -> nat {
    if has_credit_card(hand) {
        2
    } else {
        1
    }
}

/// Whether the hand holds a grey card.
pub open spec fn holds_grey(hand: Seq<CardView>) -> bool {
    exists|i: int| 0 <= i < hand.len() && hand[i] is Grey
}

/// What the pile is worth: each country's base score, once for itself and
/// once more for each bonus attached to it.
pub open spec fn pile_value(pile: Seq<CountryView>) -> nat
    decreases pile.len(),
{
    if pile.len() == 0 {
        0
    } else {
        pile_value(pile.drop_last()) + pile.last().value()
    }
}

/// The hand after the card at `index` has left it: the last card takes the
/// place of the one that left.
pub open spec fn taken(hand: Seq<CardView>, index: int) -> Seq<CardView> {
    hand.update(index, hand.last()).drop_last()
}

/// The hand after the card at `index` has left it and come back: it now lies
/// at the end, and the card that was last lies where it was.
pub open spec fn restored(hand: Seq<CardView>, index: int) -> Seq<CardView> {
    taken(hand, index).push(hand[index])
}

/// What a player holds, as plain values.
pub struct PlayerView {
    pub hand: Seq<CardView>,
    pub pile: Seq<CountryView>,
    pub score: u32,
    pub status: Seq<StatusType>,
    pub temp: Option<CardView>,
}

impl PlayerView {
    /// A player at the start of a game, with nothing but a hand.
    pub open spec fn fresh(hand: Seq<CardView>) -> PlayerView {
        PlayerView { hand, pile: Seq::empty(), score: 0, status: Seq::empty(), temp: None }
    }

    /// Whether the continent cap lets the player pile `country`.
    pub open spec fn may_play_country(self, country: CountryView) -> bool {
        visits(self.pile, country.continent()) < continent_cap(self.hand)
    }

    /// Whether `bonus` can go on the pile: there must be a top country, and
    /// it must accept the bonus.
    pub open spec fn may_play_bonus(self, bonus: Bonus) -> bool {
        self.pile.len() > 0 && self.pile.last().accepts(bonus)
    }

    /// Whether the player may go home.
    pub open spec fn may_go_home(self) -> bool {
        holds_grey(self.hand)
    }

    /// The player with another hand and all else the same.
    pub open spec fn with_hand(self, hand: Seq<CardView>) -> PlayerView {
        PlayerView { hand, ..self }
    }

    /// The player after a play that was turned down: the card at `index`
    /// went out of the hand and came back.
    pub open spec fn rebuffed(self, index: int) -> PlayerView {
        self.with_hand(restored(self.hand, index))
    }

    /// The player after the country at `index` of the hand went onto the pile.
    pub open spec fn country_played(self, index: int) -> PlayerView {
        PlayerView {
            hand: taken(self.hand, index),
            pile: self.pile.push(self.hand[index]->Country_0),
            ..self
        }
    }

    /// The player after the bonus at `index` of the hand went onto the top
    /// country of the pile.
    pub open spec fn bonus_played(self, index: int) -> PlayerView {
        PlayerView {
            hand: taken(self.hand, index),
            pile: self.pile.update(
                self.pile.len() - 1,
                self.pile.last().with_bonus(self.hand[index]->Bonus_0),
            ),
            ..self
        }
    }

    /// The player after the grey card at `index` of the hand was played: a
    /// missed flight costs one go, and the card goes to the holding slot,
    /// whatever was there.
    pub open spec fn grey_played(self, index: int) -> PlayerView {
        PlayerView {
            hand: taken(self.hand, index),
            status: self.status.push(StatusType::MissGo(1)),
            temp: Some(self.hand[index]),
            ..self
        }
    }

    /// The player after going home: the pile's worth is added to the score.
    pub open spec fn gone_home(self) -> PlayerView {
        PlayerView { score: (self.score + pile_value(self.pile)) as u32, ..self }
    }

    /// The player after the card at `index` left the hand for good.
    pub open spec fn discarded(self, index: int) -> PlayerView {
        self.with_hand(taken(self.hand, index))
    }

    /// The player with another status ledger and all else the same.
    pub open spec fn with_ledger(self, status: Seq<StatusType>) -> PlayerView {
        PlayerView { status, ..self }
    }

    /// The player with one more entry on the status ledger.
    pub open spec fn with_status(self, status: StatusType) -> PlayerView {
        PlayerView { status: self.status.push(status), ..self }
    }

    /// Whether this player holds what `before` held: the same cards in
    /// hand, if not in the same order, and the same pile, score, status
    /// ledger and holding slot.
    pub open spec fn holds_what(self, before: PlayerView) -> bool {
        &&& self.hand.len() == before.hand.len()
        &&& same_items(self.hand, before.hand)
        &&& self.pile == before.pile
        &&& self.score == before.score
        &&& self.status == before.status
        &&& self.temp == before.temp
    }

    /// Why the country at `index` of the hand cannot be piled, or `None`
    /// where it can.
    pub open spec fn country_verdict(self, index: int) -> Option<BErrorView> {
        if self.may_play_country(self.hand[index]->Country_0) {
            None
        } else {
            Some(BErrorView::SameContinent)
        }
    }

    /// Why the card at `index` of the hand cannot be attached as a bonus, or
    /// `None` where it can. The first reason that applies is given.
    pub open spec fn bonus_verdict(self, index: int) -> Option<Seq<char>> {
        if !(0 <= index < self.hand.len()) {
            Some("Invalid index"@)
        } else if !(self.hand[index] is Bonus) {
            Some("Not a bonus card"@)
        } else if self.pile.len() == 0 {
            Some("No country on played pile"@)
        } else if !self.pile.last().accepts(self.hand[index]->Bonus_0) {
            Some("Cant play this bonus on the top country"@)
        } else {
            None
        }
    }

    /// Why the card at `index` of the hand cannot be played as a grey card,
    /// or `None` where it can.
    pub open spec fn grey_verdict(self, index: int) -> Option<BErrorView> {
        if !(0 <= index < self.hand.len()) {
            Some(BErrorView::Custom("Invalid index"@))
        } else if !(self.hand[index] is Grey) {
            Some(BErrorView::Custom("Not a grey card"@))
        } else {
            None
        }
    }

    /// Why the player cannot go home, or `None` where they can.
    pub open spec fn home_verdict(self) -> Option<BErrorView> {
        if self.may_go_home() {
            None
        } else {
            Some(BErrorView::GreyHeld)
        }
    }
}

/// Piling one more country adds one visit to its continent and none to the others.
pub proof fn lemma_visits_push(pile: Seq<CountryView>, country: CountryView, continent: Continent)
    ensures
        visits(pile.push(country), continent) == visits(pile, continent) + (if country.continent()
            == continent {
            1nat
        } else {
            0nat
        }),
{
    pile.lemma_filter_push(country, lies_in(continent));
}

/// An empty pile has visited nothing.
pub proof fn lemma_visits_empty(continent: Continent)
    ensures
        visits(Seq::<CountryView>::empty(), continent) == 0,
{
    reveal_with_fuel(Seq::filter, 1);
}

/// Attaching a bonus to a country of the pile changes no visit count.
pub proof fn lemma_visits_update(
    pile: Seq<CountryView>,
    index: int,
    country: CountryView,
    continent: Continent,
)
    requires
        0 <= index < pile.len(),
        country.continent() == pile[index].continent(),
    ensures
        visits(pile.update(index, country), continent) == visits(pile, continent),
    decreases pile.len(),
{
    reveal_with_fuel(Seq::filter, 1);
    let changed = pile.update(index, country);
    if index == pile.len() - 1 {
        assert(changed.drop_last() =~= pile.drop_last());
    } else {
        lemma_visits_update(pile.drop_last(), index, country, continent);
        assert(changed.drop_last() =~= pile.drop_last().update(index, country));
    }
}

/// A card that leaves the hand takes the credit card with it only if it is one.
pub proof fn lemma_taken_credit_card(hand: Seq<CardView>, index: int)
    requires
        0 <= index < hand.len(),
        hand[index] != CardView::Special(Special::CreditCard),
    ensures
        has_credit_card(taken(hand, index)) == has_credit_card(hand),
{
    let credit = CardView::Special(Special::CreditCard);
    let rest = taken(hand, index);
    if has_credit_card(hand) {
        let k = choose|k: int| 0 <= k < hand.len() && hand[k] == credit;
        if k == hand.len() - 1 {
            assert(rest[index] == credit);
        } else {
            assert(rest[k] == credit);
        }
    }
    if has_credit_card(rest) {
        let k = choose|k: int| 0 <= k < rest.len() && rest[k] == credit;
        if k == index {
            assert(hand[hand.len() - 1] == credit);
        } else {
            assert(hand[k] == credit);
        }
    }
}

/// The worth of the first countries of a pile is no more than the worth of all.
pub proof fn lemma_pile_value_take(pile: Seq<CountryView>, n: int)
    requires
        0 <= n <= pile.len(),
    ensures
        pile_value(pile.take(n)) <= pile_value(pile),
    decreases pile.len() - n,
{
    if n == pile.len() {
        assert(pile.take(n) =~= pile);
    } else {
        lemma_pile_value_take(pile.drop_last(), n);
        assert(pile.drop_last().take(n) =~= pile.take(n));
    }
}

/// The worth of a pile with one more country on top.
pub proof fn lemma_pile_value_push(pile: Seq<CountryView>, country: CountryView)
    ensures
        pile_value(pile.push(country)) == pile_value(pile) + country.value(),
{
    assert(pile.push(country).drop_last() =~= pile);
}

} // verus!
