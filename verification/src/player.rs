//! A player: a hand, a pile of played countries, a score, a status ledger
//! and a holding slot, with the checks and plays of a single player.

use vstd::prelude::*;
use vstd::string::StringExecFns;
use crate::cards::{
    Bonus, Card, CardKind, CardView, Country, GreyType, Special, card_views, country_views,
};
use crate::error::{BError, BErrorView};
use crate::perm::lemma_swap_out_and_back;
use crate::rules::{
    PlayerView, has_credit_card, lemma_pile_value_push, lemma_pile_value_take,
    lemma_taken_credit_card, lemma_visits_empty, lemma_visits_push, pile_value, restored, taken,
    visits,
};
use crate::status::{StatusHandler, StatusType, after_turn, has_miss, pending_miss};

verus! {

/// One player of the game.
#[derive(Debug)]
pub struct Player {
    hand: Vec<Card>,
    pile: Vec<Country>,
    score: u32,
    status: StatusHandler,
    temp: Option<Card>,
}

impl View for Player {
    type V = PlayerView;

    closed spec fn view(&self) -> PlayerView {
        PlayerView {
            hand: card_views(self.hand@),
            pile: country_views(self.pile@),
            score: self.score,
            status: self.status@,
            temp: match self.temp {
                Some(card) => Some(card@),
                None => None,
            },
        }
    }
}

impl Player {
    /// A player at the start of a game, holding `hand`.
    pub fn from_hand(hand: Vec<Card>) -> (player: Player)
        ensures
            player@ == PlayerView::fresh(card_views(hand@)),
    {
        let player = Player {
            hand,
            pile: Vec::new(),
            score: 0,
            status: StatusHandler::empty(),
            temp: None,
        };
        assert(country_views(player.pile@) =~= Seq::empty());
        player
    }

    /// The country on top of the pile, the last one played.
    pub fn top_country(&self) -> (top: Option<&Country>)
        ensures
            match top {
                Some(country) => self@.pile.len() > 0 && country@ == self@.pile.last(),
                None => self@.pile.len() == 0,
            },
    {
        let n = self.pile.len();
        if n == 0 {
            None
        } else {
            Some(&self.pile[n - 1])
        }
    }

    /// Puts a status on the player.
    pub fn add_status(&mut self, status: StatusType)
        ensures
            final(self)@ == old(self)@.with_status(status),
    {
        self.status.add_status(status);
    }

    /// Whether the player may go home: the hand must hold a grey card.
    pub fn can_go_home(&self) -> (yes: bool)
        ensures
            yes == self@.may_go_home(),
    {
        let n = self.hand.len();
        let mut i: usize = 0;
        while i < n
            invariant
                i <= n,
                n == self.hand@.len(),
                forall|j: int| 0 <= j < i ==> !(card_views(self.hand@)[j] is Grey),
            decreases n - i,
        {
            if self.hand[i].is_grey() {
                assert(card_views(self.hand@)[i as int] is Grey);
                return true;
            }
            i += 1;
        }
        false
    }

    /// Whether the hand holds a credit card.
    pub fn has_credit_card(&self) -> (yes: bool)
        ensures
            yes == has_credit_card(self@.hand),
    {
        let n = self.hand.len();
        let mut i: usize = 0;
        while i < n
            invariant
                i <= n,
                n == self.hand@.len(),
                forall|j: int|
                    0 <= j < i ==> card_views(self.hand@)[j] != CardView::Special(
                        Special::CreditCard,
                    ),
            decreases n - i,
        {
            if self.hand[i].is_credit_card() {
                assert(card_views(self.hand@)[i as int] == CardView::Special(
                    Special::CreditCard,
                ));
                return true;
            }
            i += 1;
        }
        false
    }

    /// How many countries of the continent of `country` the pile holds.
    pub fn times_visited(&self, country: &Country) -> (count: usize)
        ensures
            count == visits(self@.pile, country@.continent()),
    {
        let continent = country.continent();
        let ghost pile = country_views(self.pile@);
        let n = self.pile.len();
        let mut count: usize = 0;
        let mut i: usize = 0;
        proof {
            lemma_visits_empty(continent);
            assert(pile.take(0) =~= Seq::empty());
        }
        while i < n
            invariant
                i <= n,
                n == self.pile@.len(),
                pile == country_views(self.pile@),
                continent == country@.continent(),
                count <= i,
                count == visits(pile.take(i as int), continent),
            decreases n - i,
        {
            proof {
                pile.lemma_take_succ_push(i as int);
                lemma_visits_push(pile.take(i as int), pile[i as int], continent);
            }
            if self.pile[i].continent() == continent {
                count += 1;
            }
            i += 1;
        }
        proof {
            pile.lemma_take_len();
        }
        count
    }

    /// Whether the continent cap lets the player pile `country`: a pile
    /// takes one country of a continent, or two while the hand holds a
    /// credit card.
    pub fn can_play_country(&self, country: &Country) -> (res: Result<(), BError>)
        ensures
            res is Ok <==> self@.may_play_country(country@),
            res matches Err(e) ==> e@ == BErrorView::SameContinent,
    {
        let times_visited = self.times_visited(country);
        let have_credit_card = self.has_credit_card();
        if have_credit_card {
            if times_visited >= 2 {
                return Err(BError::SameContinent);
            }
        } else if times_visited >= 1 {
            return Err(BError::SameContinent);
        }
        Ok(())
    }

    /// Plays the country at `card_index` of the hand onto the pile, if the
    /// continent cap allows. A country that is turned down goes back to the
    /// hand, at its end.
    pub fn play_country(&mut self, card_index: usize) -> (res: Result<(), BError>)
        requires
            card_index < old(self)@.hand.len(),
            old(self)@.hand[card_index as int] is Country,
        ensures
            match res {
                Ok(()) => {
                    &&& old(self)@.country_verdict(card_index as int) is None
                    &&& final(self)@ == old(self)@.country_played(card_index as int)
                },
                Err(e) => {
                    &&& old(self)@.country_verdict(card_index as int) == Some(e@)
                    &&& final(self)@ == old(self)@.rebuffed(card_index as int)
                },
            },
            res is Err ==> final(self)@.holds_what(old(self)@),
    {
        let ghost before = self@;
        let card = self.hand.swap_remove(card_index);
        proof {
            assert(card_views(self.hand@) =~= taken(before.hand, card_index as int));
            lemma_taken_credit_card(before.hand, card_index as int);
            lemma_swap_out_and_back(before.hand, card_index as int);
        }
        match card {
            Card::Country(country) => {
                match self.can_play_country(&country) {
                    Err(err) => {
                        self.hand.push(Card::Country(country));
                        assert(card_views(self.hand@) =~= restored(
                            before.hand,
                            card_index as int,
                        ));
                        Err(err)
                    },
                    Ok(()) => {
                        self.pile.push(country);
                        assert(country_views(self.pile@) =~= before.pile.push(country@));
                        Ok(())
                    },
                }
            },
            _ => {
                assert(false);
                Ok(())
            },
        }
    }

    /// Whether `bonus` can go on the pile: there must be a top country, and
    /// it must accept the bonus.
    pub fn can_play_bonus(&self, bonus: &Bonus) -> (yes: bool)
        ensures
            yes == self@.may_play_bonus(*bonus),
    {
        match self.top_country() {
            Some(top_country) => top_country.accepts(bonus),
            None => false,
        }
    }

    /// Attaches the bonus at `card_index` of the hand to the top country of
    /// the pile. A card that is turned down goes back to the hand, at its
    /// end; an index beyond the hand leaves the player untouched.
    pub fn play_bonus(&mut self, card_index: usize) -> (res: Result<(), String>)
        ensures
            match res {
                Ok(()) => {
                    &&& old(self)@.bonus_verdict(card_index as int) is None
                    &&& final(self)@ == old(self)@.bonus_played(card_index as int)
                },
                Err(reason) => {
                    &&& old(self)@.bonus_verdict(card_index as int) == Some(reason@)
                    &&& final(self)@ == if card_index < old(self)@.hand.len() {
                        old(self)@.rebuffed(card_index as int)
                    } else {
                        old(self)@
                    }
                },
            },
            res is Err ==> final(self)@.holds_what(old(self)@),
    {
        let ghost before = self@;
        if card_index >= self.hand.len() {
            return Err(String::from_str("Invalid index"));
        }
        proof {
            lemma_swap_out_and_back(before.hand, card_index as int);
        }
        let card = self.hand.swap_remove(card_index);
        assert(card_views(self.hand@) =~= taken(before.hand, card_index as int));
        if let Card::Bonus(bonus) = card {
            let n = self.pile.len();
            if n > 0 {
                if self.pile[n - 1].accepts(&bonus) {
                    self.pile[n - 1].attach(bonus);
                    assert(country_views(self.pile@) =~= before.pile.update(
                        n - 1,
                        before.pile.last().with_bonus(bonus),
                    ));
                    Ok(())
                } else {
                    self.hand.push(Card::Bonus(bonus));
                    assert(card_views(self.hand@) =~= restored(before.hand, card_index as int));
                    Err(String::from_str("Cant play this bonus on the top country"))
                }
            } else {
                self.hand.push(Card::Bonus(bonus));
                assert(card_views(self.hand@) =~= restored(before.hand, card_index as int));
                Err(String::from_str("No country on played pile"))
            }
        } else {
            self.hand.push(card);
            assert(card_views(self.hand@) =~= restored(before.hand, card_index as int));
            Err(String::from_str("Not a bonus card"))
        }
    }

    /// Plays the grey card at `card_index` of the hand: a missed flight
    /// costs the player one go, and the card goes to the holding slot in
    /// place of whatever was there. A card of another kind goes back to the
    /// hand, at its end; an index beyond the hand leaves the player untouched.
    pub fn play_grey(&mut self, card_index: usize) -> (res: Result<(), BError>)
        ensures
            match res {
                Ok(()) => {
                    &&& old(self)@.grey_verdict(card_index as int) is None
                    &&& final(self)@ == old(self)@.grey_played(card_index as int)
                },
                Err(e) => {
                    &&& old(self)@.grey_verdict(card_index as int) == Some(e@)
                    &&& final(self)@ == if card_index < old(self)@.hand.len() {
                        old(self)@.rebuffed(card_index as int)
                    } else {
                        old(self)@
                    }
                },
            },
            res is Err ==> final(self)@.holds_what(old(self)@),
    {
        let ghost before = self@;
        if card_index >= self.hand.len() {
            return Err(BError::Custom(String::from_str("Invalid index")));
        }
        proof {
            lemma_swap_out_and_back(before.hand, card_index as int);
        }
        let card = self.hand.swap_remove(card_index);
        assert(card_views(self.hand@) =~= taken(before.hand, card_index as int));
        if let Card::Grey(grey) = card {
            match grey {
                GreyType::MissedFlight => {
                    self.add_status(StatusType::MissGo(1));
                    self.temp = Some(card);
                    Ok(())
                },
            }
        } else {
            self.hand.push(card);
            assert(card_views(self.hand@) =~= restored(before.hand, card_index as int));
            Err(BError::Custom(String::from_str("Not a grey card")))
        }
    }

    /// Tries every place of the hand in turn as a bonus play. The places
    /// are those of the hand at the start; each attempt meets the hand as
    /// the attempts before it left it.
    pub fn try_playing_all_bonuses(&mut self)
        ensures
            final(self)@ == old(self)@.bonuses_swept(0, old(self)@.hand.len() as int),
    {
        let n = self.hand.len();
        let mut i: usize = 0;
        while i < n
            invariant
                i <= n,
                n == old(self)@.hand.len(),
                self@.bonuses_swept(i as int, n as int) == old(self)@.bonuses_swept(0, n as int),
            decreases n - i,
        {
            let _ = self.play_bonus(i);
            i += 1;
        }
    }

    /// Tries every place of the hand in turn as a country play, each
    /// attempt followed by a sweep of bonus plays. The places are those of
    /// the hand at the start; each attempt meets the hand as the attempts
    /// before it left it, and passes over a place that is beyond the hand
    /// or holds a card that is no country.
    pub fn try_playing_all_counties(&mut self)
        ensures
            final(self)@ == old(self)@.countries_swept(0, old(self)@.hand.len() as int),
    {
        let n = self.hand.len();
        let mut i: usize = 0;
        while i < n
            invariant
                i <= n,
                n == old(self)@.hand.len(),
                self@.countries_swept(i as int, n as int) == old(self)@.countries_swept(
                    0,
                    n as int,
                ),
            decreases n - i,
        {
            if i < self.hand.len() && self.hand[i].is_country() {
                let _ = self.play_country(i);
            }
            self.try_playing_all_bonuses();
            i += 1;
        }
    }

    /// What the pile is worth, or `None` where that is more than a score
    /// can hold.
    pub fn pile_total(&self) -> (total: Option<u32>)
        ensures
            match total {
                Some(value) => value == pile_value(self@.pile),
                None => pile_value(self@.pile) > u32::MAX,
            },
    {
        let ghost pile = country_views(self.pile@);
        let n = self.pile.len();
        let mut total: u32 = 0;
        let mut i: usize = 0;
        assert(pile.take(0) =~= Seq::empty());
        while i < n
            invariant
                i <= n,
                n == self.pile@.len(),
                pile == country_views(self.pile@),
                total == pile_value(pile.take(i as int)),
            decreases n - i,
        {
            let country = &self.pile[i];
            let score: u128 = country.score() as u128;
            let attached: u128 = country.bonus().len() as u128;
            assert(score * (1 + attached) <= 255 * 0x1_0000_0000_0000_0000) by (nonlinear_arith)
                requires
                    score <= 255,
                    attached < 0x1_0000_0000_0000_0000,
            ;
            let worth: u128 = score * (1 + attached);
            proof {
                pile.lemma_take_succ_push(i as int);
                lemma_pile_value_push(pile.take(i as int), pile[i as int]);
                lemma_pile_value_take(pile, i + 1);
                assert(worth == pile[i as int].value());
            }
            if worth > (u32::MAX - total) as u128 {
                return None;
            }
            total = total + worth as u32;
            i += 1;
        }
        proof {
            pile.lemma_take_len();
        }
        Some(total)
    }

    /// Goes home: the worth of the pile is added to the score. Hand and
    /// pile stay as they are. A player who may not go home is left untouched.
    pub fn go_home(&mut self) -> (res: Result<(), BError>)
        requires
            old(self)@.may_go_home() ==> old(self)@.score + pile_value(old(self)@.pile) <= u32::MAX,
        ensures
            match res {
                Ok(()) => {
                    &&& old(self)@.home_verdict() is None
                    &&& final(self)@ == old(self)@.gone_home()
                },
                Err(e) => {
                    &&& old(self)@.home_verdict() == Some(e@)
                    &&& final(self)@ == old(self)@
                },
            },
    {
        if !self.can_go_home() {
            return Err(BError::GreyHeld);
        }
        let gained = self.pile_total();
        self.score = self.score + gained.unwrap();
        Ok(())
    }

    /// Takes the card at `card_index` out of the hand for good. The last
    /// card of the hand takes its place.
    pub fn take_card(&mut self, card_index: usize) -> (card: Card)
        requires
            card_index < old(self)@.hand.len(),
        ensures
            card@ == old(self)@.hand[card_index as int],
            final(self)@ == old(self)@.discarded(card_index as int),
    {
        let ghost before = self@;
        let card = self.hand.swap_remove(card_index);
        assert(card_views(self.hand@) =~= taken(before.hand, card_index as int));
        card
    }

    /// The kind of the card at `card_index` of the hand.
    pub fn kind_at(&self, card_index: usize) -> (kind: CardKind)
        requires
            card_index < self@.hand.len(),
        ensures
            kind == self@.hand[card_index as int].kind(),
    {
        self.hand[card_index].kind()
    }

    /// The cards in hand.
    pub fn hand(&self) -> (hand: &Vec<Card>)
        ensures
            card_views(hand@) == self@.hand,
    {
        &self.hand
    }

    /// The countries played so far, the latest last.
    pub fn pile(&self) -> (pile: &Vec<Country>)
        ensures
            country_views(pile@) == self@.pile,
    {
        &self.pile
    }

    /// The score so far.
    pub fn score(&self) -> (score: u32)
        ensures
            score == self@.score,
    {
        self.score
    }

    /// The status ledger.
    pub fn status(&self) -> (status: &StatusHandler)
        ensures
            status@ == self@.status,
    {
        &self.status
    }

    /// The grey card kept from the last grey play, if any.
    pub fn temp(&self) -> (temp: Option<&Card>)
        ensures
            match temp {
                Some(card) => self@.temp == Some(card@),
                None => self@.temp is None,
            },
    {
        self.temp.as_ref()
    }

    /// Asks the status ledger for this turn; `true` means the turn is lost.
    pub fn no_turn(&mut self) -> (skipped: bool)
        requires
            pending_miss(old(self)@.status) != Some(0u8),
        ensures
            skipped == has_miss(old(self)@.status),
            final(self)@ == old(self)@.with_ledger(after_turn(old(self)@.status)),
    {
        self.status.no_turn()
    }
}

} // verus!
