use backpacker::{
    Advice, AdviceType, BError, Bonus, Card, Country, GreyType, Player, Special, StatusType,
};

fn country(name: &str, score: u8, allowed: &str) -> Card {
    Card::Country(Country::new(name, score, allowed))
}

fn names(cards: &[Card]) -> Vec<String> {
    let mut all: Vec<String> = cards.iter().map(|c| format!("{:?}", c)).collect();
    all.sort();
    all
}

fn pile_names(player: &Player) -> Vec<String> {
    player.pile().iter().map(|c| c.name().to_string()).collect()
}

#[test]
fn a_fresh_player_has_only_a_hand() {
    let player = Player::from_hand(vec![country("Mali", 10, "cw"), Card::Bonus(Bonus::Beach)]);
    assert_eq!(player.hand().len(), 2);
    assert!(player.pile().is_empty());
    assert_eq!(player.score(), 0);
    assert!(player.status().types().is_empty());
    assert!(player.temp().is_none());
    assert!(player.top_country().is_none());
}

#[test]
fn second_country_of_a_continent_fails_without_credit_card() {
    let mut player = Player::from_hand(vec![
        country("Mali", 10, "cw"),
        country("Kenya", 8, "bcw"),
        country("Peru", 8, "ctw"),
    ]);
    assert!(player.play_country(0).is_ok());
    assert_eq!(pile_names(&player), vec!["Mali"]);
    // the last card took the place of the one played
    assert_eq!(player.hand()[0].country().unwrap().name(), "Peru");
    assert_eq!(player.hand()[1].country().unwrap().name(), "Kenya");
    assert!(matches!(player.play_country(1), Err(BError::SameContinent)));
    assert_eq!(pile_names(&player), vec!["Mali"]);
    assert_eq!(player.hand().len(), 2);
    assert!(player.play_country(0).is_ok());
    assert_eq!(pile_names(&player), vec!["Mali", "Peru"]);
    assert_eq!(player.hand().len(), 1);
}

#[test]
fn replaying_a_country_is_blocked_by_its_continent() {
    let mut player =
        Player::from_hand(vec![country("Japan", 2, "c"), country("Japan", 2, "c")]);
    assert!(player.play_country(0).is_ok());
    assert!(matches!(player.play_country(0), Err(BError::SameContinent)));
}

#[test]
fn credit_card_allows_two_of_a_continent_and_no_more() {
    let mut player = Player::from_hand(vec![
        country("Mali", 10, "cw"),
        country("Kenya", 8, "bcw"),
        country("Egypt", 10, "cw"),
        Card::Special(Special::CreditCard),
    ]);
    assert!(player.has_credit_card());
    let at = |player: &Player, name: &str| {
        player
            .hand()
            .iter()
            .position(|c| c.country().map_or(false, |c| c.name() == name))
            .unwrap()
    };
    let i = at(&player, "Mali");
    assert!(player.play_country(i).is_ok());
    let i = at(&player, "Kenya");
    assert!(player.play_country(i).is_ok());
    let i = at(&player, "Egypt");
    assert!(matches!(player.play_country(i), Err(BError::SameContinent)));
    assert_eq!(pile_names(&player), vec!["Mali", "Kenya"]);
    assert_eq!(player.hand().len(), 2);
    assert!(player.has_credit_card());
}

#[test]
fn can_play_country_counts_the_continent() {
    let mut player = Player::from_hand(vec![country("Italy", 4, "ct")]);
    let france = Country::new("France", 2, "ct");
    let china = Country::new("China", 8, "ctw");
    assert!(player.can_play_country(&france).is_ok());
    assert_eq!(player.times_visited(&france), 0);
    assert!(player.play_country(0).is_ok());
    assert_eq!(player.times_visited(&france), 1);
    assert_eq!(player.times_visited(&china), 0);
    assert!(matches!(player.can_play_country(&france), Err(BError::SameContinent)));
    assert!(player.can_play_country(&china).is_ok());
}

#[test]
fn a_refused_country_goes_back_to_the_end_of_the_hand() {
    let mut player = Player::from_hand(vec![
        country("Mali", 10, "cw"),
        country("Kenya", 8, "bcw"),
        Card::Bonus(Bonus::Beach),
        Card::Grey(GreyType::MissedFlight),
    ]);
    assert!(player.play_country(0).is_ok());
    let before = names(player.hand());
    let pile_before = format!("{:?}", player.pile());
    assert!(matches!(player.play_country(1), Err(BError::SameContinent)));
    assert_eq!(names(player.hand()), before);
    assert_eq!(format!("{:?}", player.pile()), pile_before);
    assert_eq!(player.hand().len(), 3);
    assert_eq!(player.hand()[2].country().unwrap().name(), "Kenya");
    assert!(matches!(player.hand()[1], Card::Bonus(Bonus::Beach)));
    assert_eq!(player.score(), 0);
    assert!(player.status().types().is_empty());
    assert!(player.temp().is_none());
}

#[test]
fn bonus_needs_a_country_that_accepts_it() {
    let mut player = Player::from_hand(vec![
        country("Mali", 10, "cw"),
        Card::Bonus(Bonus::Beach),
        Card::Bonus(Bonus::Wildlife),
    ]);
    assert!(!player.can_play_bonus(&Bonus::Wildlife));
    assert_eq!(player.play_bonus(1), Err("No country on played pile".to_string()));
    assert_eq!(player.hand().len(), 3);
    assert!(player.play_country(0).is_ok());
    // the refused bonus went to the end, then the last card replaced the country
    assert!(matches!(player.hand()[0], Card::Bonus(Bonus::Beach)));
    assert!(matches!(player.hand()[1], Card::Bonus(Bonus::Wildlife)));
    assert!(player.can_play_bonus(&Bonus::Wildlife));
    assert!(player.can_play_bonus(&Bonus::Culture));
    assert!(!player.can_play_bonus(&Bonus::Beach));
    assert!(!player.can_play_bonus(&Bonus::Trekking));
    let before = names(player.hand());
    assert_eq!(
        player.play_bonus(0),
        Err("Cant play this bonus on the top country".to_string())
    );
    assert_eq!(names(player.hand()), before);
    assert!(matches!(player.hand()[0], Card::Bonus(Bonus::Wildlife)));
    assert!(player.pile()[0].bonus().is_empty());
    assert_eq!(player.play_bonus(0), Ok(()));
    assert_eq!(player.pile()[0].bonus(), &vec![Bonus::Wildlife]);
    assert_eq!(player.pile().len(), 1);
    assert_eq!(player.hand().len(), 1);
}

#[test]
fn bonus_play_names_its_reason() {
    let mut player =
        Player::from_hand(vec![country("Mali", 10, "cw"), Card::Bonus(Bonus::Culture)]);
    assert_eq!(player.play_bonus(2), Err("Invalid index".to_string()));
    assert_eq!(player.play_bonus(7), Err("Invalid index".to_string()));
    assert_eq!(player.hand()[0].country().unwrap().name(), "Mali");
    assert_eq!(player.play_bonus(0), Err("Not a bonus card".to_string()));
    // the country went out and came back: it now lies at the end
    assert!(matches!(player.hand()[0], Card::Bonus(Bonus::Culture)));
    assert_eq!(player.hand()[1].country().unwrap().name(), "Mali");
    assert!(player.pile().is_empty());
}

#[test]
fn bonuses_go_to_the_top_country_only() {
    let mut player = Player::from_hand(vec![
        Card::Bonus(Bonus::Culture),
        Card::Bonus(Bonus::Culture),
        Card::Bonus(Bonus::Culture),
        country("Japan", 2, "c"),
        country("Mali", 10, "cw"),
    ]);
    assert!(player.play_country(4).is_ok());
    assert_eq!(player.play_bonus(0), Ok(()));
    // hand: [Japan, Culture, Culture]
    assert!(player.play_country(0).is_ok());
    assert_eq!(player.top_country().unwrap().name(), "Japan");
    assert_eq!(player.play_bonus(0), Ok(()));
    assert_eq!(player.play_bonus(0), Ok(()));
    assert_eq!(player.pile()[0].bonus(), &vec![Bonus::Culture]);
    // a country may take more bonuses than its codes count
    assert_eq!(player.pile()[1].bonus(), &vec![Bonus::Culture, Bonus::Culture]);
    assert!(player.hand().is_empty());
}

#[test]
fn grey_card_costs_a_go_and_is_kept() {
    let mut player = Player::from_hand(vec![
        country("Mali", 10, "cw"),
        Card::Grey(GreyType::MissedFlight),
        Card::Grey(GreyType::MissedFlight),
    ]);
    assert!(player.play_grey(1).is_ok());
    assert_eq!(player.status().types(), &vec![StatusType::MissGo(1)]);
    assert!(matches!(player.temp(), Some(Card::Grey(GreyType::MissedFlight))));
    assert_eq!(player.hand().len(), 2);
    assert!(player.pile().is_empty());
    // a second grey card takes the slot and adds its own entry
    assert!(player.play_grey(1).is_ok());
    assert_eq!(
        player.status().types(),
        &vec![StatusType::MissGo(1), StatusType::MissGo(1)]
    );
    assert!(matches!(player.temp(), Some(Card::Grey(GreyType::MissedFlight))));
    assert_eq!(player.hand().len(), 1);
}

#[test]
fn grey_play_names_its_reason() {
    let mut player = Player::from_hand(vec![
        country("Mali", 10, "cw"),
        Card::Advice(Advice::new(true, AdviceType::Money)),
    ]);
    match player.play_grey(2) {
        Err(BError::Custom(reason)) => assert_eq!(reason, "Invalid index"),
        other => panic!("{:?}", other),
    }
    match player.play_grey(0) {
        Err(BError::Custom(reason)) => assert_eq!(reason, "Not a grey card"),
        other => panic!("{:?}", other),
    }
    assert_eq!(player.hand().len(), 2);
    assert_eq!(player.hand()[1].country().unwrap().name(), "Mali");
    assert!(player.status().types().is_empty());
    assert!(player.temp().is_none());
}

#[test]
fn go_home_scores_the_pile() {
    let mut player = Player::from_hand(vec![
        country("Mali", 10, "cw"),
        country("Brazil", 8, "bcw"),
        country("Tahiti", 4, "bcw"),
        Card::Bonus(Bonus::Beach),
        Card::Bonus(Bonus::Culture),
        Card::Bonus(Bonus::Wildlife),
        Card::Grey(GreyType::MissedFlight),
    ]);
    let at = |player: &Player, test: &dyn Fn(&Card) -> bool| {
        player.hand().iter().position(|c| test(c)).unwrap()
    };
    let named = |name: &'static str| move |c: &Card| c.country().map_or(false, |c| c.name() == name);
    let i = at(&player, &named("Mali"));
    assert!(player.play_country(i).is_ok());
    let i = at(&player, &named("Brazil"));
    assert!(player.play_country(i).is_ok());
    let i = at(&player, &|c| matches!(c, Card::Bonus(Bonus::Beach)));
    assert_eq!(player.play_bonus(i), Ok(()));
    let i = at(&player, &|c| matches!(c, Card::Bonus(Bonus::Culture)));
    assert_eq!(player.play_bonus(i), Ok(()));
    let i = at(&player, &named("Tahiti"));
    assert!(player.play_country(i).is_ok());
    let i = at(&player, &|c| matches!(c, Card::Bonus(Bonus::Wildlife)));
    assert_eq!(player.play_bonus(i), Ok(()));
    let shape: Vec<(u8, usize)> =
        player.pile().iter().map(|c| (c.score(), c.bonus().len())).collect();
    assert_eq!(shape, vec![(10, 0), (8, 2), (4, 1)]);
    assert_eq!(player.pile_total(), Some(42));
    assert!(player.can_go_home());
    assert!(player.go_home().is_ok());
    assert_eq!(player.score(), 42);
    // neither pile nor hand is cleared, and going home again adds again
    assert_eq!(player.pile().len(), 3);
    assert_eq!(player.hand().len(), 1);
    assert!(player.go_home().is_ok());
    assert_eq!(player.score(), 84);
}

#[test]
fn go_home_needs_a_grey_card_in_hand() {
    let mut player =
        Player::from_hand(vec![country("Mali", 10, "cw"), Card::Bonus(Bonus::Culture)]);
    assert!(player.play_country(0).is_ok());
    assert!(!player.can_go_home());
    assert!(matches!(player.go_home(), Err(BError::GreyHeld)));
    assert_eq!(player.score(), 0);
    assert_eq!(player.pile().len(), 1);
    assert_eq!(player.hand().len(), 1);
}

#[test]
fn go_home_with_an_empty_pile_adds_nothing() {
    let mut player = Player::from_hand(vec![Card::Grey(GreyType::MissedFlight)]);
    assert_eq!(player.pile_total(), Some(0));
    assert!(player.go_home().is_ok());
    assert_eq!(player.score(), 0);
}

#[test]
fn add_status_reaches_the_ledger() {
    let mut player = Player::from_hand(vec![]);
    player.add_status(StatusType::MissGo(2));
    assert_eq!(player.status().types(), &vec![StatusType::MissGo(2)]);
    assert!(player.no_turn());
    assert_eq!(player.status().types(), &vec![StatusType::MissGo(1)]);
    assert!(player.no_turn());
    assert!(player.status().types().is_empty());
    assert!(!player.no_turn());
}

#[test]
fn take_card_swaps_in_the_last() {
    let mut player = Player::from_hand(vec![
        country("Mali", 10, "cw"),
        Card::Bonus(Bonus::Beach),
        Card::Bonus(Bonus::Trekking),
    ]);
    let card = player.take_card(0);
    assert_eq!(card.country().unwrap().name(), "Mali");
    assert!(matches!(player.hand()[0], Card::Bonus(Bonus::Trekking)));
    assert!(matches!(player.hand()[1], Card::Bonus(Bonus::Beach)));
    let card = player.take_card(1);
    assert!(matches!(card, Card::Bonus(Bonus::Beach)));
    assert_eq!(player.hand().len(), 1);
}

#[test]
fn sweeping_bonuses_attaches_what_fits() {
    let mut player = Player::from_hand(vec![
        country("Mali", 10, "cw"),
        Card::Bonus(Bonus::Culture),
        Card::Bonus(Bonus::Beach),
        Card::Bonus(Bonus::Wildlife),
    ]);
    player.try_playing_all_bonuses();
    assert_eq!(player.hand().len(), 4);
    assert!(player.pile().is_empty());
    let i = player.hand().iter().position(|c| c.is_country()).unwrap();
    assert!(player.play_country(i).is_ok());
    player.try_playing_all_bonuses();
    assert_eq!(player.pile().len(), 1);
    let attached = player.pile()[0].bonus().clone();
    assert!(!attached.is_empty());
    assert!(attached.iter().all(|b| *b != Bonus::Beach));
    assert_eq!(player.hand().len() + attached.len(), 3);
    assert!(player.hand().iter().any(|c| matches!(c, Card::Bonus(Bonus::Beach))));
}

#[test]
fn sweeping_countries_piles_one_per_continent() {
    let mut player = Player::from_hand(vec![
        country("Mali", 10, "cw"),
        country("Kenya", 8, "bcw"),
        Card::Bonus(Bonus::Culture),
        country("Peru", 8, "ctw"),
        Card::Grey(GreyType::MissedFlight),
    ]);
    player.try_playing_all_counties();
    let piled = pile_names(&player);
    assert_eq!(piled[0], "Mali");
    assert!(!(piled.contains(&"Mali".to_string()) && piled.contains(&"Kenya".to_string())));
    let bonuses: usize = player.pile().iter().map(|c| c.bonus().len()).sum();
    assert_eq!(player.hand().len() + player.pile().len() + bonuses, 5);
    assert!(player.hand().iter().any(|c| c.is_grey()));
    assert_eq!(player.score(), 0);
}
