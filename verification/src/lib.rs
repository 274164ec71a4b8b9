//! Rules engine of a turn-based travel card game: the card catalogue, the
//! per-player legality checks, the status ledger and the turn sequencing.

pub mod board;
pub mod cards;
pub mod deck;
pub mod error;
pub mod laws;
pub mod perm;
pub mod player;
pub mod rules;
pub mod status;
pub mod text;
pub mod turn;

pub use board::{Board, HAND_SIZE};
pub use cards::{
    Advice, AdviceType, Bonus, Card, CardKind, Continent, Country, GreyType, Special,
};
pub use deck::DECK_SIZE;
pub use error::BError;
pub use player::Player;
pub use status::{StatusHandler, StatusType};
pub use turn::{Action, TurnState};
