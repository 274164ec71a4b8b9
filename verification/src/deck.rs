//! The card catalogue: the fixed run of cards that makes up a deck.

use vstd::prelude::*;
use crate::cards::{Advice, AdviceType, Bonus, Card, CardView, Country, CountryView, card_views};

verus! {

/// A country card fresh from the catalogue, with nothing attached.
pub open spec fn country_card(name: Seq<char>, score: u8, allowed_bonus: Seq<char>) -> CardView {
    CardView::Country(CountryView { name, score, allowed_bonus, bonus: Seq::empty() })
}

/// An advice card.
pub open spec fn advice_card(good: bool, variant: AdviceType) -> CardView {
    CardView::Advice(Advice { good, variant })
}

pub open spec fn african_cards() -> Seq<CardView> {
    seq![
        country_card("Mali"@, 10, "cw"@),
        country_card("Egypt"@, 10, "cw"@),
        country_card("Kenya"@, 8, "bcw"@),
        country_card("Morocco"@, 6, "ct"@),
        country_card("Uganda"@, 6, "ctw"@),
        country_card("South Africa"@, 4, "bcw"@),
        country_card("Zimbabwe"@, 2, "cw"@),
    ]
}

pub open spec fn american_cards() -> Seq<CardView> {
    seq![
        country_card("Bolivia"@, 8, "ctw"@),
        country_card("Brazil"@, 8, "bcw"@),
        country_card("Peru"@, 8, "ctw"@),
        country_card("Mexico"@, 6, "bc"@),
        country_card("Argentina"@, 4, "ctw"@),
        country_card("USA"@, 2, "bctw"@),
        country_card("Canada"@, 2, "ctw"@),
    ]
}

pub open spec fn antarctic_cards() -> Seq<CardView> {
    seq![country_card("Antarctica"@, 4, "tw"@)]
}

pub open spec fn asian_cards() -> Seq<CardView> {
    seq![
        country_card("Mongolia"@, 10, "cw"@),
        country_card("China"@, 8, "ctw"@),
        country_card("India"@, 8, "bctw"@),
        country_card("Indonesia"@, 6, "bctw"@),
        country_card("Nepal"@, 6, "ctw"@),
        country_card("Uzbekistan"@, 6, "ct"@),
        country_card("Thailand"@, 4, "bc"@),
        country_card("Vietnam"@, 4, "bc"@),
        country_card("Japan"@, 2, "c"@),
    ]
}

pub open spec fn european_cards() -> Seq<CardView> {
    seq![
        country_card("Russia"@, 6, "ctw"@),
        country_card("Turkey"@, 6, "bc"@),
        country_card("Italy"@, 4, "ct"@),
        country_card("Germany"@, 2, "c"@),
        country_card("Ireland"@, 2, "c"@),
        country_card("UK"@, 2, "c"@),
        country_card("France"@, 2, "ct"@),
        country_card("Holland"@, 2, "c"@),
    ]
}

pub open spec fn oceanian_cards() -> Seq<CardView> {
    seq![
        country_card("Easter Island"@, 6, "c"@),
        country_card("Tahiti"@, 4, "bcw"@),
        country_card("New Zealand"@, 4, "bct"@),
        country_card("Australia"@, 4, "bcw"@),
        country_card("Cook Islands"@, 2, "bc"@),
        country_card("Fiji"@, 2, "bcw"@),
    ]
}

pub open spec fn bonus_cards() -> Seq<CardView> {
    seq![
        CardView::Bonus(Bonus::Beach),
        CardView::Bonus(Bonus::Beach),
        CardView::Bonus(Bonus::Beach),
        CardView::Bonus(Bonus::Culture),
        CardView::Bonus(Bonus::Culture),
        CardView::Bonus(Bonus::Culture),
        CardView::Bonus(Bonus::Trekking),
        CardView::Bonus(Bonus::Trekking),
        CardView::Bonus(Bonus::Wildlife),
        CardView::Bonus(Bonus::Wildlife),
    ]
}

pub open spec fn advice_cards() -> Seq<CardView> {
    seq![
        advice_card(true, AdviceType::Money),
        advice_card(true, AdviceType::Money),
        advice_card(true, AdviceType::Money),
        advice_card(true, AdviceType::Transport),
        advice_card(true, AdviceType::Transport),
        advice_card(true, AdviceType::Transport),
        advice_card(false, AdviceType::Transport),
        advice_card(false, AdviceType::Transport),
        advice_card(true, AdviceType::Timing),
        advice_card(true, AdviceType::Timing),
        advice_card(true, AdviceType::Timing),
        advice_card(false, AdviceType::Timing),
        advice_card(false, AdviceType::Timing),
        advice_card(true, AdviceType::Bureaucracy),
        advice_card(true, AdviceType::Bureaucracy),
        advice_card(true, AdviceType::Bureaucracy),
        advice_card(false, AdviceType::Bureaucracy),
        advice_card(false, AdviceType::Bureaucracy),
    ]
}

/// The whole catalogue in its fixed order: the countries continent by
/// continent, then the bonus cards, then the advice cards.
pub open spec fn full_deck() -> Seq<CardView> {
    african_cards() + american_cards() + antarctic_cards() + asian_cards() + european_cards()
        + oceanian_cards() + bonus_cards() + advice_cards()
}

/// The number of cards in the catalogue.
pub const DECK_SIZE: usize = 66;

/// The catalogue holds `DECK_SIZE` cards.
pub proof fn lemma_full_deck_len()
    ensures
        full_deck().len() == DECK_SIZE,
{
    assert(african_cards().len() == 7);
    assert(american_cards().len() == 7);
    assert(antarctic_cards().len() == 1);
    assert(asian_cards().len() == 9);
    assert(european_cards().len() == 8);
    assert(oceanian_cards().len() == 6);
    assert(bonus_cards().len() == 10);
    assert(advice_cards().len() == 18);
    let countries = african_cards() + american_cards() + antarctic_cards() + asian_cards()
        + european_cards() + oceanian_cards();
    assert(countries.len() == 38);
    assert(full_deck() == countries + bonus_cards() + advice_cards());
}

impl Card {
    /// A fresh, unshuffled deck.
    pub fn deck() -> (deck: Vec<Card>)
        ensures
            card_views(deck@) == full_deck(),
            deck@.len() == DECK_SIZE,
    {
        let deck = vec![
            Card::Country(Country::new("Mali", 10, "cw")),
            Card::Country(Country::new("Egypt", 10, "cw")),
            Card::Country(Country::new("Kenya", 8, "bcw")),
            Card::Country(Country::new("Morocco", 6, "ct")),
            Card::Country(Country::new("Uganda", 6, "ctw")),
            Card::Country(Country::new("South Africa", 4, "bcw")),
            Card::Country(Country::new("Zimbabwe", 2, "cw")),
            Card::Country(Country::new("Bolivia", 8, "ctw")),
            Card::Country(Country::new("Brazil", 8, "bcw")),
            Card::Country(Country::new("Peru", 8, "ctw")),
            Card::Country(Country::new("Mexico", 6, "bc")),
            Card::Country(Country::new("Argentina", 4, "ctw")),
            Card::Country(Country::new("USA", 2, "bctw")),
            Card::Country(Country::new("Canada", 2, "ctw")),
            Card::Country(Country::new("Antarctica", 4, "tw")),
            Card::Country(Country::new("Mongolia", 10, "cw")),
            Card::Country(Country::new("China", 8, "ctw")),
            Card::Country(Country::new("India", 8, "bctw")),
            Card::Country(Country::new("Indonesia", 6, "bctw")),
            Card::Country(Country::new("Nepal", 6, "ctw")),
            Card::Country(Country::new("Uzbekistan", 6, "ct")),
            Card::Country(Country::new("Thailand", 4, "bc")),
            Card::Country(Country::new("Vietnam", 4, "bc")),
            Card::Country(Country::new("Japan", 2, "c")),
            Card::Country(Country::new("Russia", 6, "ctw")),
            Card::Country(Country::new("Turkey", 6, "bc")),
            Card::Country(Country::new("Italy", 4, "ct")),
            Card::Country(Country::new("Germany", 2, "c")),
            Card::Country(Country::new("Ireland", 2, "c")),
            Card::Country(Country::new("UK", 2, "c")),
            Card::Country(Country::new("France", 2, "ct")),
            Card::Country(Country::new("Holland", 2, "c")),
            Card::Country(Country::new("Easter Island", 6, "c")),
            Card::Country(Country::new("Tahiti", 4, "bcw")),
            Card::Country(Country::new("New Zealand", 4, "bct")),
            Card::Country(Country::new("Australia", 4, "bcw")),
            Card::Country(Country::new("Cook Islands", 2, "bc")),
            Card::Country(Country::new("Fiji", 2, "bcw")),
            Card::Bonus(Bonus::Beach),
            Card::Bonus(Bonus::Beach),
            Card::Bonus(Bonus::Beach),
            Card::Bonus(Bonus::Culture),
            Card::Bonus(Bonus::Culture),
            Card::Bonus(Bonus::Culture),
            Card::Bonus(Bonus::Trekking),
            Card::Bonus(Bonus::Trekking),
            Card::Bonus(Bonus::Wildlife),
            Card::Bonus(Bonus::Wildlife),
            Card::Advice(Advice::new(true, AdviceType::Money)),
            Card::Advice(Advice::new(true, AdviceType::Money)),
            Card::Advice(Advice::new(true, AdviceType::Money)),
            Card::Advice(Advice::new(true, AdviceType::Transport)),
            Card::Advice(Advice::new(true, AdviceType::Transport)),
            Card::Advice(Advice::new(true, AdviceType::Transport)),
            Card::Advice(Advice::new(false, AdviceType::Transport)),
            Card::Advice(Advice::new(false, AdviceType::Transport)),
            Card::Advice(Advice::new(true, AdviceType::Timing)),
            Card::Advice(Advice::new(true, AdviceType::Timing)),
            Card::Advice(Advice::new(true, AdviceType::Timing)),
            Card::Advice(Advice::new(false, AdviceType::Timing)),
            Card::Advice(Advice::new(false, AdviceType::Timing)),
            Card::Advice(Advice::new(true, AdviceType::Bureaucracy)),
            Card::Advice(Advice::new(true, AdviceType::Bureaucracy)),
            Card::Advice(Advice::new(true, AdviceType::Bureaucracy)),
            Card::Advice(Advice::new(false, AdviceType::Bureaucracy)),
            Card::Advice(Advice::new(false, AdviceType::Bureaucracy)),
        ];
        assert(card_views(deck@) =~= full_deck());
        proof {
            lemma_full_deck_len();
        }
        deck
    }
}

} // verus!
