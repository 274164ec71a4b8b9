//! The card taxonomy: countries, bonuses, advice, special and grey cards,
//! each with the mathematical view that the contracts of the engine speak of.

use vstd::prelude::*;
use crate::text::{str_contains, str_eq};

verus! {

/// A bonus token that may be attached to a played country.
#[derive(Debug, Clone, Copy, PartialEq, Eq, Structural)]
pub enum Bonus {
    Beach,
    Culture,
    Trekking,
    Wildlife,
}

impl Bonus {
    /// The one-character code by which a country lists the bonuses it accepts.
    pub open spec fn code(self) -> char {
        match self {
            Bonus::Beach => 'b',
            Bonus::Culture => 'c',
            Bonus::Trekking => 't',
            Bonus::Wildlife => 'w',
        }
    }

    /// Whether `c` is the code of some bonus.
    pub open spec fn is_code(c: char) -> bool {
        c == 'b' || c == 'c' || c == 't' || c == 'w'
    }

    /// The bonus whose code is `input`.
    pub fn parse(input: &char) -> (bonus: Bonus)
        requires
            Bonus::is_code(*input),
        ensures
            bonus.code() == *input,
    {
        let c = *input;
        if c == 'b' {
            Bonus::Beach
        } else if c == 'c' {
            Bonus::Culture
        } else if c == 't' {
            Bonus::Trekking
        } else {
            Bonus::Wildlife
        }
    }

    /// The code of this bonus.
    pub fn unparse(&self) -> (c: char)
        ensures
            c == self.code(),
            Bonus::is_code(c),
    {
        match self {
            Bonus::Beach => 'b',
            Bonus::Culture => 'c',
            Bonus::Trekking => 't',
            Bonus::Wildlife => 'w',
        }
    }
}

/// The continent a country belongs to.
#[derive(Debug, Clone, Copy, PartialEq, Eq, Structural)]
pub enum Continent {
    Africa,
    America,
    Antarctica,
    Asia,
    Europe,
    Oceania,
}

pub open spec fn is_african(name: Seq<char>) -> bool {
    ||| name == "Mali"@
    ||| name == "Egypt"@
    ||| name == "Kenya"@
    ||| name == "Morocco"@
    ||| name == "Uganda"@
    ||| name == "South Africa"@
    ||| name == "Zimbabwe"@
}

pub open spec fn is_american(name: Seq<char>) -> bool {
    ||| name == "Bolivia"@
    ||| name == "Brazil"@
    ||| name == "Peru"@
    ||| name == "Mexico"@
    ||| name == "Argentina"@
    ||| name == "USA"@
    ||| name == "Canada"@
}

pub open spec fn is_asian(name: Seq<char>) -> bool {
    ||| name == "Mongolia"@
    ||| name == "China"@
    ||| name == "India"@
    ||| name == "Indonesia"@
    ||| name == "Nepal"@
    ||| name == "Uzbekistan"@
    ||| name == "Thailand"@
    ||| name == "Vietnam"@
    ||| name == "Japan"@
}

pub open spec fn is_european(name: Seq<char>) -> bool {
    ||| name == "Russia"@
    ||| name == "Turkey"@
    ||| name == "Italy"@
    ||| name == "Germany"@
    ||| name == "Ireland"@
    ||| name == "UK"@
    ||| name == "France"@
    ||| name == "Holland"@
}

pub open spec fn is_oceanian(name: Seq<char>) -> bool {
    ||| name == "Easter Island"@
    ||| name == "Tahiti"@
    ||| name == "New Zealand"@
    ||| name == "Australia"@
    ||| name == "Cook Islands"@
    ||| name == "Fiji"@
}

/// The fixed table from a country's name to its continent. The groups are
/// consulted in this order, and a name in none of them is in Antarctica.
pub open spec fn continent_of(name: Seq<char>) -> Continent {
    if is_african(name) {
        Continent::Africa
    } else if is_american(name) {
        Continent::America
    } else if name == "Antarctica"@ {
        Continent::Antarctica
    } else if is_asian(name) {
        Continent::Asia
    } else if is_european(name) {
        Continent::Europe
    } else if is_oceanian(name) {
        Continent::Oceania
    } else {
        Continent::Antarctica
    }
}

fn african(name: &str) -> (r: bool)
    ensures
        r == is_african(name@),
{
    str_eq(name, "Mali") || str_eq(name, "Egypt") || str_eq(name, "Kenya") || str_eq(
        name,
        "Morocco",
    ) || str_eq(name, "Uganda") || str_eq(name, "South Africa") || str_eq(name, "Zimbabwe")
}

fn american(name: &str) -> (r: bool)
    ensures
        r == is_american(name@),
{
    str_eq(name, "Bolivia") || str_eq(name, "Brazil") || str_eq(name, "Peru") || str_eq(
        name,
        "Mexico",
    ) || str_eq(name, "Argentina") || str_eq(name, "USA") || str_eq(name, "Canada")
}

fn asian(name: &str) -> (r: bool)
    ensures
        r == is_asian(name@),
{
    str_eq(name, "Mongolia") || str_eq(name, "China") || str_eq(name, "India") || str_eq(
        name,
        "Indonesia",
    ) || str_eq(name, "Nepal") || str_eq(name, "Uzbekistan") || str_eq(name, "Thailand")
        || str_eq(name, "Vietnam") || str_eq(name, "Japan")
}

fn european(name: &str) -> (r: bool)
    ensures
        r == is_european(name@),
{
    str_eq(name, "Russia") || str_eq(name, "Turkey") || str_eq(name, "Italy") || str_eq(
        name,
        "Germany",
    ) || str_eq(name, "Ireland") || str_eq(name, "UK") || str_eq(name, "France") || str_eq(
        name,
        "Holland",
    )
}

fn oceanian(name: &str) -> (r: bool)
    ensures
        r == is_oceanian(name@),
{
    str_eq(name, "Easter Island") || str_eq(name, "Tahiti") || str_eq(name, "New Zealand")
        || str_eq(name, "Australia") || str_eq(name, "Cook Islands") || str_eq(name, "Fiji")
}

/// What a country is, as plain values.
pub struct CountryView {
    pub name: Seq<char>,
    pub score: u8,
    pub allowed_bonus: Seq<char>,
    pub bonus: Seq<Bonus>,
}

impl CountryView {
    /// The continent the country lies in.
    pub open spec fn continent(self) -> Continent {
        continent_of(self.name)
    }

    /// Whether the country takes the given bonus.
    pub open spec fn accepts(self, bonus: Bonus) -> bool {
        self.allowed_bonus.contains(bonus.code())
    }

    /// The country with one more bonus attached, behind those it has.
    pub open spec fn with_bonus(self, bonus: Bonus) -> CountryView {
        CountryView {
            name: self.name,
            score: self.score,
            allowed_bonus: self.allowed_bonus,
            bonus: self.bonus.push(bonus),
        }
    }

    /// What the country is worth when its owner goes home.
    pub open spec fn value(self) -> nat {
        (self.score * (1 + self.bonus.len())) as nat
    }
}

/// A country card: a name, a base score, the codes of the bonuses it
/// accepts, and the bonuses attached to it so far.
#[derive(Debug, Clone)]
pub struct Country {
    name: String,
    score: u8,
    allowed_bonus: String,
    bonus: Vec<Bonus>,
}

impl View for Country {
    type V = CountryView;

    closed spec fn view(&self) -> CountryView {
        CountryView {
            name: self.name@,
            score: self.score,
            allowed_bonus: self.allowed_bonus@,
            bonus: self.bonus@,
        }
    }
}

impl Country {
    /// A country with no bonus attached.
    pub fn new(name: &str, score: u8, allowed_bonuses: &str) -> (country: Country)
        ensures
            country@ == (CountryView {
                name: name@,
                score: score,
                allowed_bonus: allowed_bonuses@,
                bonus: Seq::empty(),
            }),
    {
        Country {
            name: name.to_owned(),
            score,
            allowed_bonus: allowed_bonuses.to_owned(),
            bonus: Vec::new(),
        }
    }

    /// The continent of the country, found by its name.
    pub fn continent(&self) -> (continent: Continent)
        ensures
            continent == self@.continent(),
    {
        let name = self.name.as_str();
        if african(name) {
            Continent::Africa
        } else if american(name) {
            Continent::America
        } else if str_eq(name, "Antarctica") {
            Continent::Antarctica
        } else if asian(name) {
            Continent::Asia
        } else if european(name) {
            Continent::Europe
        } else if oceanian(name) {
            Continent::Oceania
        } else {
            Continent::Antarctica
        }
    }

    /// Whether the country takes the given bonus.
    pub fn accepts(&self, bonus: &Bonus) -> (yes: bool)
        ensures
            yes == self@.accepts(*bonus),
    {
        str_contains(self.allowed_bonus.as_str(), bonus.unparse())
    }

    /// Attaches one more bonus, behind those already there.
    pub fn attach(&mut self, bonus: Bonus)
        ensures
            final(self)@ == old(self)@.with_bonus(bonus),
    {
        self.bonus.push(bonus);
    }

    /// The country's name.
    pub fn name(&self) -> (name: &str)
        ensures
            name@ == self@.name,
    {
        self.name.as_str()
    }

    /// The base score.
    pub fn score(&self) -> (score: u8)
        ensures
            score == self@.score,
    {
        self.score
    }

    /// The codes of the bonuses the country accepts.
    pub fn allowed_bonus(&self) -> (codes: &str)
        ensures
            codes@ == self@.allowed_bonus,
    {
        self.allowed_bonus.as_str()
    }

    /// The bonuses attached so far, oldest first.
    pub fn bonus(&self) -> (attached: &Vec<Bonus>)
        ensures
            attached@ == self@.bonus,
    {
        &self.bonus
    }
}

impl PartialEq for Country {
    /// Two countries are the same country when they bear the same name.
    fn eq(&self, other: &Self) -> (same: bool) {
        self.name == other.name
    }
}

impl vstd::std_specs::cmp::PartialEqSpecImpl for Country {
    open spec fn obeys_eq_spec() -> bool {
        true
    }

    open spec fn eq_spec(&self, other: &Self) -> bool {
        self@.name == other@.name
    }
}

/// The subject of a piece of advice.
#[derive(Debug, Clone, Copy, PartialEq, Eq, Structural)]
pub enum AdviceType {
    Money,
    Bureaucracy,
    Timing,
    Transport,
}

/// An advice card: a subject, and whether the advice is good.
#[derive(Debug, Clone, Copy, PartialEq, Eq, Structural)]
pub struct Advice {
    pub good: bool,
    pub variant: AdviceType,
}

impl Advice {
    pub fn new(good: bool, variant: AdviceType) -> (advice: Advice)
        ensures
            advice == (Advice { good, variant }),
    {
        Advice { good, variant }
    }
}

/// A penalty card. Playing it puts a status on the player, who keeps the card.
#[derive(Debug, Clone, Copy, PartialEq, Eq, Structural)]
pub enum GreyType {
    MissedFlight,
}

/// A card that works from the hand and is never played.
#[derive(Debug, Clone, Copy, PartialEq, Eq, Structural)]
pub enum Special {
    CreditCard,
}

/// The kind of a card, without what is on it.
#[derive(Debug, Clone, Copy, PartialEq, Eq, Structural)]
pub enum CardKind {
    Country,
    Bonus,
    Advice,
    Special,
    Grey,
}

/// What a card is, as plain values.
pub enum CardView {
    Country(CountryView),
    Bonus(Bonus),
    Advice(Advice),
    Special(Special),
    Grey(GreyType),
}

impl CardView {
    /// The kind of the card.
    pub open spec fn kind(self) -> CardKind {
        match self {
            CardView::Country(_) => CardKind::Country,
            CardView::Bonus(_) => CardKind::Bonus,
            CardView::Advice(_) => CardKind::Advice,
            CardView::Special(_) => CardKind::Special,
            CardView::Grey(_) => CardKind::Grey,
        }
    }
}

/// Any card of the game.
#[derive(Debug, Clone)]
pub enum Card {
    Country(Country),
    Bonus(Bonus),
    Advice(Advice),
    Special(Special),
    Grey(GreyType),
}

impl View for Card {
    type V = CardView;

    open spec fn view(&self) -> CardView {
        match self {
            Card::Country(country) => CardView::Country(country@),
            Card::Bonus(bonus) => CardView::Bonus(*bonus),
            Card::Advice(advice) => CardView::Advice(*advice),
            Card::Special(special) => CardView::Special(*special),
            Card::Grey(grey) => CardView::Grey(*grey),
        }
    }
}

impl Card {
    /// The kind of the card.
    pub fn kind(&self) -> (kind: CardKind)
        ensures
            kind == self@.kind(),
    {
        match self {
            Card::Country(_) => CardKind::Country,
            Card::Bonus(_) => CardKind::Bonus,
            Card::Advice(_) => CardKind::Advice,
            Card::Special(_) => CardKind::Special,
            Card::Grey(_) => CardKind::Grey,
        }
    }

    pub fn is_country(&self) -> (yes: bool)
        ensures
            yes == (self@ is Country),
    {
        matches!(self, Card::Country(..))
    }

    /// The country on the card, if it is a country card.
    pub fn country(&self) -> (country: Option<&Country>)
        ensures
            match country {
                Some(c) => self@ == CardView::Country(c@),
                None => !(self@ is Country),
            },
    {
        if let Card::Country(country) = self {
            Some(country)
        } else {
            None
        }
    }

    pub fn is_bonus(&self) -> (yes: bool)
        ensures
            yes == (self@ is Bonus),
    {
        matches!(self, Card::Bonus(..))
    }

    /// The bonus on the card, if it is a bonus card.
    pub fn bonus(&self) -> (bonus: Option<&Bonus>)
        ensures
            match bonus {
                Some(b) => self@ == CardView::Bonus(*b),
                None => !(self@ is Bonus),
            },
    {
        if let Card::Bonus(bonus) = self {
            Some(bonus)
        } else {
            None
        }
    }

    pub fn is_grey(&self) -> (yes: bool)
        ensures
            yes == (self@ is Grey),
    {
        matches!(self, Card::Grey(..))
    }

    pub fn is_credit_card(&self) -> (yes: bool)
        ensures
            yes == (self@ == CardView::Special(Special::CreditCard)),
    {
        matches!(self, Card::Special(Special::CreditCard))
    }
}

/// The views of a run of cards, in order.
pub open spec fn card_views(cards: Seq<Card>) -> Seq<CardView> {
    cards.map_values(|card: Card| card@)
}

/// The views of a run of countries, in order.
pub open spec fn country_views(countries: Seq<Country>) -> Seq<CountryView> {
    countries.map_values(|country: Country| country@)
}

} // verus!
