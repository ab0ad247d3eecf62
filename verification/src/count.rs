//! Validation of the player count: a game only ever holds between four and
//! twelve players, and the count fixes how many trial cards each player
//! starts with.

use vstd::prelude::*;

verus! {

/// Why a game could not be created: the requested player count was out of
/// range, too low or too high. Each variant carries the offending count.
#[derive(Debug, PartialEq, Eq, Structural)]
pub enum NewGameError {
    TooFewPlayersError(u8),
    TooManyPlayersError(u8),
}

/// A validated player count: by construction always between four and twelve.
pub enum NumberOfPlayers {
    Four,
    Five,
    Six,
    Seven,
    Eight,
    Nine,
    Ten,
    Eleven,
    Twelve,
}

/// The raw count a validated `NumberOfPlayers` stands for.
pub open spec fn count_of(n: NumberOfPlayers) -> u8 {
    match n {
        NumberOfPlayers::Four => 4,
        NumberOfPlayers::Five => 5,
        NumberOfPlayers::Six => 6,
        NumberOfPlayers::Seven => 7,
        NumberOfPlayers::Eight => 8,
        NumberOfPlayers::Nine => 9,
        NumberOfPlayers::Ten => 10,
        NumberOfPlayers::Eleven => 11,
        NumberOfPlayers::Twelve => 12,
    }
}

/// The trial cards a player starts with, as a function of the raw player
/// count: five cards for 4-6 players, four for 7-9, three for 10-12.
pub open spec fn allotment(n: u8) -> u8
    recommends
        4 <= n <= 12,
{
    if n <= 6 {
        5
    } else if n <= 9 {
        4
    } else {
        3
    }
}

/// `allotment`, restated over a validated count.
pub open spec fn allotment_for(n: NumberOfPlayers) -> u8 {
    allotment(count_of(n))
}

impl NumberOfPlayers {
    /// Validates a raw player count. This is the single gate every game
    /// construction goes through: a count outside [4, 12] is rejected with
    /// the matching error variant carrying the count itself.
    pub fn try_from(value: u8) -> (r: Result<NumberOfPlayers, NewGameError>)
        ensures
            value <= 3 ==> r == Err::<NumberOfPlayers, NewGameError>(
                NewGameError::TooFewPlayersError(value),
            ),
            4 <= value <= 12 ==> (r matches Ok(n) && count_of(n) == value),
            value >= 13 ==> r == Err::<NumberOfPlayers, NewGameError>(
                NewGameError::TooManyPlayersError(value),
            ),
    {
        match value {
            0..=3 => Err(NewGameError::TooFewPlayersError(value)),
            4 => Ok(NumberOfPlayers::Four),
            5 => Ok(NumberOfPlayers::Five),
            6 => Ok(NumberOfPlayers::Six),
            7 => Ok(NumberOfPlayers::Seven),
            8 => Ok(NumberOfPlayers::Eight),
            9 => Ok(NumberOfPlayers::Nine),
            10 => Ok(NumberOfPlayers::Ten),
            11 => Ok(NumberOfPlayers::Eleven),
            12 => Ok(NumberOfPlayers::Twelve),
            _ => Err(NewGameError::TooManyPlayersError(value)),
        }
    }
}

} // verus!
