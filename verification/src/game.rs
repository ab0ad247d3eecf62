//! The game aggregate: an ordered roster of players, advanced only by pure
//! transitions that return a new `Game` value. The roster's length is fixed
//! at construction; positions are stable seat indices; targeting in a
//! transition goes by player identity alone.

use vstd::prelude::*;

use crate::count::NewGameError;
use crate::count::NumberOfPlayers;
use crate::count::allotment;
use crate::count::allotment_for;
use crate::count::count_of;
use crate::ident::decimal_of;
use crate::ident::u8_to_decimal_string;
use crate::player::CardType;
use crate::player::Player;
use crate::player::PlayerView;
use crate::player::reveal_card;

verus! {

/// The identities a list of player handles targets, in order.
pub open spec fn target_ids(targets: Seq<&Player>) -> Seq<Seq<char>> {
    targets.map_values(|t: &Player| t@.id)
}

/// A reveal transition on the whole roster: every player whose identity
/// matches takes the reveal, every other player is unchanged.
pub open spec fn reveal_for_id(ps: Seq<PlayerView>, id: Seq<char>, card: CardType) -> Seq<
    PlayerView,
> {
    ps.map_values(
        |p: PlayerView|
            if p.id == id {
                reveal_card(p, card)
            } else {
                p
            },
    )
}

/// A combined kill transition: every player whose identity is among the
/// targeted ones loses all cards, every other player is unchanged.
pub open spec fn kill_ids(ps: Seq<PlayerView>, ids: Seq<Seq<char>>) -> Seq<PlayerView> {
    ps.map_values(
        |p: PlayerView|
            if ids.contains(p.id) {
                PlayerView { cards: 0, ..p }
            } else {
                p
            },
    )
}

/// The players still in the game, in their original seat order.
pub open spec fn alive_players(ps: Seq<PlayerView>) -> Seq<PlayerView> {
    ps.filter(|p: PlayerView| p.cards > 0)
}

/// The roster a fresh game starts with: one player per seat, identified by
/// the seat's decimal rendering, each holding the tier's card allotment.
pub open spec fn new_roster(n: u8) -> Seq<PlayerView>
    recommends
        4 <= n <= 12,
{
    Seq::new(n as nat, |i: int| PlayerView { id: decimal_of(i as nat), cards: allotment(n) })
}

/// An immutable aggregate of players. Every transition returns a new `Game`
/// and leaves the receiver untouched, so every past state stays addressable.
#[derive(Debug)]
pub struct Game {
    players: Vec<Player>,
}

impl View for Game {
    type V = Seq<PlayerView>;

    closed spec fn view(&self) -> Seq<PlayerView> {
        self.players@.map_values(|p: Player| p@)
    }
}

impl Game {
    /// Creates a game of `number_of_players` players when that count lies in
    /// [4, 12], and fails with the matching error variant (carrying the
    /// count) otherwise. Each player starts with the allotment for the tier
    /// the count falls in, and is identified by its creation index.
    pub fn new(number_of_players: u8) -> (r: Result<Game, NewGameError>)
        ensures
            4 <= number_of_players <= 12 ==> (r matches Ok(g) && g@ == new_roster(
                number_of_players,
            )),
            number_of_players <= 3 ==> r == Err::<Game, NewGameError>(
                NewGameError::TooFewPlayersError(number_of_players),
            ),
            number_of_players >= 13 ==> r == Err::<Game, NewGameError>(
                NewGameError::TooManyPlayersError(number_of_players),
            ),
    {
        let valid_number_of_players = match NumberOfPlayers::try_from(number_of_players) {
            Ok(n) => n,
            Err(e) => {
                return Err(e);
            },
        };
        let mut players: Vec<Player> = Vec::new();
        let mut position: u8 = 0;
        while position < number_of_players
            invariant
                position <= number_of_players,
                4 <= number_of_players <= 12,
                count_of(valid_number_of_players) == number_of_players,
                players@.len() == position as int,
                players@.map_values(|p: Player| p@) =~= new_roster(number_of_players).take(
                    position as int,
                ),
            decreases number_of_players - position,
        {
            let id = u8_to_decimal_string(position);
            players.push(Player::new(id, &valid_number_of_players));
            position = position + 1;
            proof {
                assert(allotment_for(valid_number_of_players) == allotment(number_of_players));
                let mapped = players@.map_values(|p: Player| p@);
                let target = new_roster(number_of_players).take(position as int);
                assert forall|k: int| 0 <= k < mapped.len() implies mapped[k] == target[k] by {
                    if k == position - 1 {
                        assert(mapped[k] == players@[k]@);
                        assert(target[k] == new_roster(number_of_players)[k]);
                    }
                }
                assert(mapped =~= target);
            }
        }
        let game = Game { players };
        proof {
            assert(game@ =~= new_roster(number_of_players));
        }
        Ok(game)
    }

    /// The players that still hold a card, in seat order.
    pub fn players_still_alive(&self) -> (r: Vec<&Player>)
        ensures
            r@.map_values(|p: &Player| p@) == alive_players(self@),
    {
        let mut alive: Vec<&Player> = Vec::new();
        let mut i: usize = 0;
        while i < self.players.len()
            invariant
                i <= self.players.len(),
                self@.len() == self.players@.len(),
                alive@.map_values(|p: &Player| p@) =~= alive_players(self@.take(i as int)),
            decreases self.players.len() - i,
        {
            let p = &self.players[i];
            if p.is_alive() {
                alive.push(p);
            }
            i = i + 1;
            proof {
                broadcast use Seq::lemma_filter_push;

                assert(self@.take(i as int) =~= self@.take(i as int - 1).push(self@[i as int - 1]));
                assert(alive@.map_values(|p: &Player| p@) =~= alive_players(self@.take(i as int)));
            }
        }
        proof {
            assert(self@.take(self.players@.len() as int) =~= self@);
        }
        alive
    }

    /// The player sitting at `position`, or `None` past the end of the
    /// roster. Never fails: an out-of-range position is an expected case.
    pub fn get_player_by_position(&self, position: usize) -> (r: Option<&Player>)
        ensures
            position < self@.len() ==> (r matches Some(p) && p@ == self@[position as int]),
            position >= self@.len() ==> r is None,
    {
        if position < self.players.len() {
            Some(&self.players[position])
        } else {
            None
        }
    }

    /// Returns a new game in which every player matching `player` by
    /// identity has taken the reveal, and every other player is unchanged.
    /// The matching goes by identity alone, never by card count, so a handle
    /// captured before an earlier transition still targets the same seat.
    /// Revealing `NotAWitch` costs the target a card, so every matching
    /// player must still hold one.
    pub fn reveal_tryal_card(&self, player: &Player, card_type: &CardType) -> (g: Game)
        requires
            *card_type matches CardType::NotAWitch ==> forall|i: int|
                0 <= i < self@.len() && (#[trigger] self@[i]).id == player@.id ==> self@[i].cards
                    > 0,
        ensures
            g@ == reveal_for_id(self@, player@.id, *card_type),
    {
        let mut players: Vec<Player> = Vec::new();
        let mut i: usize = 0;
        while i < self.players.len()
            invariant
                i <= self.players.len(),
                self@.len() == self.players@.len(),
                *card_type matches CardType::NotAWitch ==> forall|j: int|
                    0 <= j < self@.len() && (#[trigger] self@[j]).id == player@.id
                        ==> self@[j].cards > 0,
                players@.len() == i as int,
                players@.map_values(|p: Player| p@) =~= reveal_for_id(
                    self@,
                    player@.id,
                    *card_type,
                ).take(i as int),
            decreases self.players.len() - i,
        {
            let p = &self.players[i];
            proof {
                assert(self@[i as int] == p@);
            }
            if *p == *player {
                proof {
                    assert(*card_type matches CardType::NotAWitch ==> self@[i as int].cards > 0);
                }
                players.push(p.reveal_tryal_card(card_type));
            } else {
                players.push(p.clone());
            }
            i = i + 1;
            proof {
                let mapped = players@.map_values(|p: Player| p@);
                let target = reveal_for_id(self@, player@.id, *card_type).take(i as int);
                assert forall|k: int| 0 <= k < mapped.len() implies mapped[k] == target[k] by {
                    if k == i - 1 {
                        assert(mapped[k] == players@[k]@);
                        assert(target[k] == reveal_for_id(self@, player@.id, *card_type)[k]);
                    }
                }
                assert(mapped =~= target);
            }
        }
        let game = Game { players };
        proof {
            assert(game@ =~= reveal_for_id(self@, player@.id, *card_type));
        }
        game
    }

    /// Returns a new game in which every player matching any of the targets
    /// by identity has lost all cards, and every other player is unchanged:
    /// one combined transition rather than one reveal per target.
    pub fn kill_players(&self, targets: Vec<&Player>) -> (g: Game)
        ensures
            g@ == kill_ids(self@, target_ids(targets@)),
    {
        let mut players: Vec<Player> = Vec::new();
        let mut i: usize = 0;
        while i < self.players.len()
            invariant
                i <= self.players.len(),
                self@.len() == self.players@.len(),
                players@.len() == i as int,
                players@.map_values(|p: Player| p@) =~= kill_ids(
                    self@,
                    target_ids(targets@),
                ).take(i as int),
            decreases self.players.len() - i,
        {
            let p = &self.players[i];
            proof {
                assert(self@[i as int] == p@);
            }
            if is_targeted(p, &targets) {
                players.push(p.reveal_tryal_card(&CardType::Witch));
            } else {
                players.push(p.clone());
            }
            i = i + 1;
            proof {
                let mapped = players@.map_values(|p: Player| p@);
                let target = kill_ids(self@, target_ids(targets@)).take(i as int);
                assert forall|k: int| 0 <= k < mapped.len() implies mapped[k] == target[k] by {
                    if k == i - 1 {
                        assert(mapped[k] == players@[k]@);
                        assert(target[k] == kill_ids(self@, target_ids(targets@))[k]);
                    }
                }
                assert(mapped =~= target);
            }
        }
        let game = Game { players };
        proof {
            assert(game@ =~= kill_ids(self@, target_ids(targets@)));
        }
        game
    }
}

/// Whether any of the targets matches `p` by identity.
fn is_targeted(p: &Player, targets: &Vec<&Player>) -> (r: bool)
    ensures
        r == target_ids(targets@).contains(p@.id),
{
    let mut j: usize = 0;
    while j < targets.len()
        invariant
            j <= targets@.len(),
            forall|k: int| 0 <= k < j ==> target_ids(targets@)[k] != p@.id,
        decreases targets@.len() - j,
    {
        let t = targets[j];
        if *t == *p {
            proof {
                assert(target_ids(targets@)[j as int] == p@.id);
            }
            return true;
        }
        j = j + 1;
    }
    proof {
        assert(forall|k: int| 0 <= k < targets@.len() ==> target_ids(targets@)[k] != p@.id);
        assert(!target_ids(targets@).contains(p@.id));
    }
    false
}

} // verus!
