//! A small domain model for a witch-trial card game: a `Game` holds an
//! ordered roster of `Player`s, each with a number of trial cards, and every
//! transition (revealing a card, killing players) returns a new `Game` value
//! while the old one stays valid and unchanged.

pub mod count;
pub mod game;
pub mod ident;
pub mod laws;
pub mod player;

pub use count::NewGameError;
pub use count::NumberOfPlayers;
pub use game::Game;
pub use player::CardType;
pub use player::Player;
