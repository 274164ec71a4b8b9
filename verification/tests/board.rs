use backpacker::{
    Action, Advice, AdviceType, BError, Board, Bonus, Card, Country, GreyType, Special,
    StatusType, TurnState, DECK_SIZE, HAND_SIZE,
};

fn country(name: &str, score: u8, allowed: &str) -> Card {
    Card::Country(Country::new(name, score, allowed))
}

fn keys(cards: &[Card]) -> Vec<String> {
    cards.iter().map(|c| format!("{:?}", c)).collect()
}

fn sorted(mut keys: Vec<String>) -> Vec<String> {
    keys.sort();
    keys
}

fn cards_in_play(board: &Board) -> Vec<String> {
    let mut all = Vec::new();
    for player in &board.players {
        all.extend(keys(player.hand()));
    }
    all.extend(keys(board.future()));
    all
}

/// A one-player game whose hand is the five cards given, in that order.
fn game_with_hand(hand: [Card; 5]) -> Board {
    let mut deck: Vec<Card> = hand.into_iter().collect();
    deck.push(Card::Advice(Advice::new(true, AdviceType::Money)));
    Board::deal(deck, 1)
}

#[test]
fn deal_takes_hands_from_the_front() {
    let board = Board::deal(Card::deck(), 3);
    let deck = keys(&Card::deck());
    assert_eq!(board.players.len(), 3);
    for (seat, player) in board.players.iter().enumerate() {
        assert_eq!(keys(player.hand()), deck[seat * HAND_SIZE..(seat + 1) * HAND_SIZE]);
        assert!(player.pile().is_empty());
        assert_eq!(player.score(), 0);
        assert!(player.status().types().is_empty());
        assert!(player.temp().is_none());
    }
    assert_eq!(keys(board.future()), deck[3 * HAND_SIZE..]);
    assert!(board.past().is_empty());
    assert_eq!(board.turn(), 0);
    assert_eq!(cards_in_play(&board), deck);
}

#[test]
fn new_game_deals_every_card_once() {
    for num_players in [1usize, 2, 4, 13] {
        let board = Board::new_game(num_players);
        assert_eq!(board.players.len(), num_players);
        assert_eq!(board.turn(), 0);
        assert!(board.past().is_empty());
        for player in &board.players {
            assert_eq!(player.hand().len(), HAND_SIZE);
            assert!(player.pile().is_empty());
            assert_eq!(player.score(), 0);
        }
        assert_eq!(board.future().len(), DECK_SIZE - HAND_SIZE * num_players);
        assert!(board.in_play());
        assert_eq!(sorted(cards_in_play(&board)), sorted(keys(&Card::deck())));
    }
}

#[test]
fn new_game_shuffles() {
    let deck = keys(&Card::deck());
    let shuffled = (0..8).any(|_| cards_in_play(&Board::new_game(2)) != deck);
    assert!(shuffled);
}

#[test]
fn three_players_come_round_in_three_turns() {
    let mut board = Board::deal(Card::deck(), 3);
    assert_eq!(board.turn(), 0);
    board.next_turn();
    assert_eq!(board.turn(), 1);
    board.next_turn();
    assert_eq!(board.turn(), 2);
    board.next_turn();
    assert_eq!(board.turn(), 0);
}

#[test]
fn a_lone_player_is_always_to_move() {
    let mut board = Board::deal(Card::deck(), 1);
    board.next_turn();
    assert_eq!(board.turn(), 0);
}

#[test]
fn discard_moves_a_card_to_the_past() {
    let mut board = Board::deal(Card::deck(), 2);
    board.player_discard(0);
    assert_eq!(board.players[0].hand().len(), HAND_SIZE - 1);
    assert_eq!(board.players[1].hand().len(), HAND_SIZE);
    assert_eq!(board.past().len(), 1);
    assert_eq!(board.past()[0].country().unwrap().name(), "Mali");
    // the last card of the hand took its place
    assert_eq!(board.players[0].hand()[0].country().unwrap().name(), "Uganda");
    board.discard(Card::Bonus(Bonus::Beach));
    assert_eq!(board.past().len(), 2);
    assert!(matches!(board.past()[1], Card::Bonus(Bonus::Beach)));
    assert_eq!(board.turn(), 0);
}

#[test]
fn an_accepted_action_completes_the_turn() {
    let mut board = Board::deal(Card::deck(), 2);
    assert_eq!(board.manual_game(), Some(TurnState::AwaitingAction));
    let state = board.manual_turn(TurnState::AwaitingAction, Some(Action::Play(0)));
    assert!(matches!(state, Ok(TurnState::TurnComplete)));
    assert_eq!(board.players[0].pile()[0].name(), "Mali");
    assert_eq!(board.turn(), 1);
    assert_eq!(board.current_player().hand().len(), HAND_SIZE);
}

#[test]
fn a_refused_action_keeps_the_turn() {
    let mut board = Board::deal(Card::deck(), 2);
    assert!(board.manual_try_turn(Action::Play(0)).is_ok());
    assert_eq!(board.turn(), 0);
    // the hand is now Uganda, Egypt, Kenya, Morocco: all African
    let before = sorted(keys(board.players[0].hand()));
    let state = board.manual_turn(TurnState::AwaitingAction, Some(Action::Play(1)));
    assert!(matches!(state, Err(BError::SameContinent)));
    assert_eq!(board.turn(), 0);
    assert_eq!(sorted(keys(board.players[0].hand())), before);
    assert_eq!(board.players[0].pile().len(), 1);
    assert!(board.past().is_empty());
    // a retry with something legal goes through
    let state = board.manual_turn(TurnState::AwaitingAction, Some(Action::Discard(0)));
    assert!(matches!(state, Ok(TurnState::TurnComplete)));
    assert_eq!(board.turn(), 1);
    assert_eq!(board.past().len(), 1);
}

#[test]
fn a_missed_go_skips_the_turn() {
    let mut board = Board::deal(Card::deck(), 2);
    board.players[0].add_status(StatusType::MissGo(2));
    assert_eq!(board.enter_turn(), TurnState::TurnSkipped);
    assert_eq!(board.players[0].status().types(), &vec![StatusType::MissGo(1)]);
    let state = board.manual_turn(TurnState::TurnSkipped, None);
    assert!(matches!(state, Ok(TurnState::TurnComplete)));
    assert_eq!(board.turn(), 1);
    assert_eq!(board.players[0].hand().len(), HAND_SIZE);
    assert_eq!(board.manual_game(), Some(TurnState::AwaitingAction));
    board.next_turn();
    assert_eq!(board.enter_turn(), TurnState::TurnSkipped);
    assert!(board.players[0].status().types().is_empty());
    assert_eq!(board.enter_turn(), TurnState::AwaitingAction);
}

#[test]
fn a_status_can_be_seeded_on_any_player() {
    let mut board = Board::deal(Card::deck(), 3);
    board.add_status(2, StatusType::MissGo(1));
    board.add_status(2, StatusType::VisaProblem);
    assert!(board.players[0].status().types().is_empty());
    assert!(board.players[1].status().types().is_empty());
    assert_eq!(
        board.players[2].status().types(),
        &vec![StatusType::MissGo(1), StatusType::VisaProblem]
    );
    assert_eq!(board.enter_turn(), TurnState::AwaitingAction);
    board.next_turn();
    board.next_turn();
    assert_eq!(board.enter_turn(), TurnState::TurnSkipped);
    assert_eq!(board.players[2].status().types(), &vec![StatusType::VisaProblem]);
}

#[test]
fn steps_without_an_awaited_action_change_nothing() {
    let mut board = Board::deal(Card::deck(), 2);
    let before = cards_in_play(&board);
    let state = board.manual_turn(TurnState::AwaitingAction, None);
    assert!(matches!(state, Ok(TurnState::AwaitingAction)));
    let state = board.manual_turn(TurnState::TurnComplete, Some(Action::Play(0)));
    assert!(matches!(state, Ok(TurnState::TurnComplete)));
    assert_eq!(board.turn(), 0);
    assert_eq!(cards_in_play(&board), before);
}

#[test]
fn play_dispatches_by_the_kind_of_card() {
    let mut board = game_with_hand([
        country("Mali", 10, "cw"),
        Card::Bonus(Bonus::Beach),
        Card::Bonus(Bonus::Culture),
        Card::Special(Special::CreditCard),
        Card::Grey(GreyType::MissedFlight),
    ]);
    // a bonus with no country to take it
    match board.manual_try_turn(Action::Play(1)) {
        Err(BError::Custom(reason)) => assert_eq!(reason, "No country on played pile"),
        other => panic!("{:?}", other),
    }
    let at = |board: &Board, test: &dyn Fn(&Card) -> bool| {
        board.current_player().hand().iter().position(|c| test(c)).unwrap()
    };
    let i = at(&board, &|c| c.is_country());
    assert!(board.manual_try_turn(Action::Play(i)).is_ok());
    assert_eq!(board.current_player().pile().len(), 1);
    let i = at(&board, &|c| matches!(c, Card::Bonus(Bonus::Beach)));
    match board.manual_try_turn(Action::Play(i)) {
        Err(BError::Custom(reason)) => {
            assert_eq!(reason, "Cant play this bonus on the top country")
        },
        other => panic!("{:?}", other),
    }
    let i = at(&board, &|c| matches!(c, Card::Bonus(Bonus::Culture)));
    assert!(board.manual_try_turn(Action::Play(i)).is_ok());
    assert_eq!(board.current_player().pile()[0].bonus(), &vec![Bonus::Culture]);
    // a special card is accepted and stays where it is
    let i = at(&board, &|c| c.is_credit_card());
    let before = keys(board.current_player().hand());
    assert!(board.manual_try_turn(Action::Play(i)).is_ok());
    assert_eq!(keys(board.current_player().hand()), before);
    let i = at(&board, &|c| c.is_grey());
    assert!(board.manual_try_turn(Action::Play(i)).is_ok());
    assert_eq!(board.current_player().status().types(), &vec![StatusType::MissGo(1)]);
    assert!(board.current_player().temp().is_some());
    assert_eq!(board.current_player().hand().len(), 2);
}

#[test]
fn going_home_through_the_board() {
    let mut board = game_with_hand([
        country("Mali", 10, "cw"),
        Card::Bonus(Bonus::Culture),
        Card::Bonus(Bonus::Wildlife),
        Card::Grey(GreyType::MissedFlight),
        Card::Bonus(Bonus::Beach),
    ]);
    assert!(board.manual_play_country(0).is_ok());
    // hand: Beach, Culture, Wildlife, Grey
    assert!(board.manual_play_bonus(1).is_ok());
    // hand: Beach, Grey, Wildlife
    assert!(board.manual_play_bonus(2).is_ok());
    assert!(board.manual_go_home().is_ok());
    assert_eq!(board.current_player().score(), 30);
    assert!(board.manual_play_grey(1).is_ok());
    let state = board.manual_turn(TurnState::AwaitingAction, Some(Action::GoHome));
    assert!(matches!(state, Err(BError::GreyHeld)));
    assert_eq!(board.current_player().score(), 30);
}

#[test]
fn the_game_ends_with_the_future_pile() {
    let mut board = Board::deal(Card::deck(), 13);
    assert_eq!(board.future().len(), 1);
    assert!(board.in_play());
    assert_eq!(board.manual_game(), Some(TurnState::AwaitingAction));
}
