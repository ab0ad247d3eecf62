//! Players and trial-card reveals. A player is an identity plus a count of
//! trial cards; a reveal either costs one card (`NotAWitch`) or eliminates
//! the player outright (`Witch`). Players compare equal by identity alone,
//! so a stale handle still targets the same seat.

use vstd::prelude::*;

use crate::count::NumberOfPlayers;
use crate::count::allotment_for;

verus! {

/// The outcome of inspecting a trial card.
pub enum CardType {
    NotAWitch,
    Witch,
}

/// The mathematical value of a player: its identity and how many trial
/// cards it still holds.
#[verifier::ext_equal]
pub ghost struct PlayerView {
    pub id: Seq<char>,
    pub cards: u8,
}

/// What a reveal does to one player: `NotAWitch` costs one card, `Witch`
/// sets the count to zero. The count never goes below zero.
pub open spec fn reveal_card(p: PlayerView, card: CardType) -> PlayerView {
    match card {
        CardType::NotAWitch => PlayerView {
            cards: if p.cards == 0 {
                0
            } else {
                (p.cards - 1) as u8
            },
            ..p
        },
        CardType::Witch => PlayerView { cards: 0, ..p },
    }
}

/// One seat at the table: an identity and the trial cards it still holds.
/// A player with no cards left is out of the game.
#[derive(Debug)]
pub struct Player {
    id: String,
    tryal_card_amount: u8,
}

impl View for Player {
    type V = PlayerView;

    closed spec fn view(&self) -> PlayerView {
        PlayerView { id: self.id@, cards: self.tryal_card_amount }
    }
}

impl Player {
    /// Creates a player with the given identity, holding the card allotment
    /// for the given player count.
    pub fn new(id: String, number_of_players: &NumberOfPlayers) -> (p: Player)
        ensures
            p@ == (PlayerView { id: id@, cards: allotment_for(*number_of_players) }),
    {
        Player {
            id,
            tryal_card_amount: match number_of_players {
                NumberOfPlayers::Four | NumberOfPlayers::Five | NumberOfPlayers::Six => 5,
                NumberOfPlayers::Seven | NumberOfPlayers::Eight | NumberOfPlayers::Nine => 4,
                NumberOfPlayers::Ten | NumberOfPlayers::Eleven | NumberOfPlayers::Twelve => 3,
            },
        }
    }

    /// How many trial cards this player still holds.
    pub fn tryal_cards_remaining(&self) -> (r: u8)
        ensures
            r == self@.cards,
    {
        self.tryal_card_amount
    }

    /// A player is alive exactly while it still holds a trial card.
    pub fn is_alive(&self) -> (r: bool)
        ensures
            r == (self@.cards > 0),
    {
        self.tryal_card_amount > 0
    }

    /// Returns the player after a reveal: one card fewer for `NotAWitch`,
    /// no cards at all for `Witch`. The identity is kept. Revealing
    /// `NotAWitch` asks for a card to give up, so the player must be alive.
    pub fn reveal_tryal_card(&self, card_type: &CardType) -> (p: Player)
        requires
            *card_type matches CardType::NotAWitch ==> self@.cards > 0,
        ensures
            p@ == reveal_card(self@, *card_type),
    {
        Player {
            id: self.id.clone(),
            tryal_card_amount: match card_type {
                CardType::NotAWitch => self.tryal_card_amount - 1,
                CardType::Witch => 0,
            },
        }
    }
}

impl Clone for Player {
    /// A clone is the same player: same identity, same card count.
    fn clone(&self) -> (p: Player)
        ensures
            p@ == self@,
    {
        Player { id: self.id.clone(), tryal_card_amount: self.tryal_card_amount }
    }
}

impl PartialEq for Player {
    /// Players are the same player exactly when their identities match;
    /// the card count plays no part.
    fn eq(&self, other: &Player) -> (r: bool) {
        self.id == other.id
    }
}

impl vstd::std_specs::cmp::PartialEqSpecImpl for Player {
    open spec fn obeys_eq_spec() -> bool {
        true
    }

    open spec fn eq_spec(&self, other: &Player) -> bool {
        self@.id == other@.id
    }
}

} // verus!
