//! The laws of the model, stated over the ghost rosters that the `Game`
//! operations are specified with, and proved for every input: what a fresh
//! roster looks like, what reveals do to the alive players, and how the
//! combined kill transition relates to single witch reveals.

use vstd::prelude::*;

use crate::count::allotment;
use crate::game::alive_players;
use crate::game::kill_ids;
use crate::game::new_roster;
use crate::game::reveal_for_id;
use crate::player::CardType;
use crate::player::PlayerView;

verus! {

/// A roster in which every player is alive is its own alive-player list.
proof fn lemma_alive_all(ps: Seq<PlayerView>)
    requires
        forall|i: int| 0 <= i < ps.len() ==> (#[trigger] ps[i]).cards > 0,
    ensures
        alive_players(ps) == ps,
    decreases ps.len(),
{
    broadcast use Seq::lemma_filter_push;
    broadcast use Seq::lemma_filter_len;

    if ps.len() == 0 {
        assert(alive_players(ps) =~= ps);
    } else {
        let prefix = ps.drop_last();
        lemma_alive_all(prefix);
        assert(prefix.push(ps.last()) =~= ps);
        assert(alive_players(ps) == alive_players(prefix).push(ps.last()));
        assert(alive_players(ps) =~= ps);
    }
}

/// Two rosters whose seats agree on who is alive have alive-player lists of
/// the same length.
proof fn lemma_alive_len_pointwise(a: Seq<PlayerView>, b: Seq<PlayerView>)
    requires
        a.len() == b.len(),
        forall|i: int| 0 <= i < a.len() ==> ((#[trigger] a[i]).cards > 0 <==> b[i].cards > 0),
    ensures
        alive_players(a).len() == alive_players(b).len(),
    decreases a.len(),
{
    broadcast use Seq::lemma_filter_push;
    broadcast use Seq::lemma_filter_len;

    if a.len() == 0 {
        assert(alive_players(a) =~= Seq::<PlayerView>::empty());
        assert(alive_players(b) =~= Seq::<PlayerView>::empty());
    } else {
        lemma_alive_len_pointwise(a.drop_last(), b.drop_last());
        assert(a.drop_last().push(a.last()) =~= a);
        assert(b.drop_last().push(b.last()) =~= b);
        assert(a[a.len() - 1].cards > 0 <==> b[a.len() - 1].cards > 0);
    }
}

/// Law: a fresh roster of `n` players holds exactly `n` players, and every
/// one of them is alive.
pub proof fn lemma_new_roster_all_alive(n: u8)
    requires
        4 <= n <= 12,
    ensures
        new_roster(n).len() == n as nat,
        alive_players(new_roster(n)) == new_roster(n),
{
    assert forall|i: int| 0 <= i < new_roster(n).len() implies (#[trigger] new_roster(
        n,
    )[i]).cards > 0 by {
        assert(new_roster(n)[i].cards == allotment(n));
    }
    lemma_alive_all(new_roster(n));
}

/// Law: a `NotAWitch` reveal costs every player matching the identity
/// exactly one card and leaves every other player untouched, as long as the
/// matching players still hold a card.
pub proof fn lemma_not_a_witch_costs_one_card(ps: Seq<PlayerView>, id: Seq<char>)
    requires
        forall|i: int| 0 <= i < ps.len() && (#[trigger] ps[i]).id == id ==> ps[i].cards > 0,
    ensures
        reveal_for_id(ps, id, CardType::NotAWitch).len() == ps.len(),
        forall|i: int|
            0 <= i < ps.len() && (#[trigger] ps[i]).id == id ==> reveal_for_id(
                ps,
                id,
                CardType::NotAWitch,
            )[i].cards == ps[i].cards - 1,
        forall|i: int|
            0 <= i < ps.len() && (#[trigger] ps[i]).id != id ==> reveal_for_id(
                ps,
                id,
                CardType::NotAWitch,
            )[i] == ps[i],
{
}

/// Law: a `NotAWitch` reveal never changes how many players are alive, as
/// long as every player matching the identity holds more than one card.
pub proof fn lemma_not_a_witch_keeps_alive_count(ps: Seq<PlayerView>, id: Seq<char>)
    requires
        forall|i: int| 0 <= i < ps.len() && (#[trigger] ps[i]).id == id ==> ps[i].cards > 1,
    ensures
        alive_players(reveal_for_id(ps, id, CardType::NotAWitch)).len() == alive_players(ps).len(),
{
    let qs = reveal_for_id(ps, id, CardType::NotAWitch);
    assert(forall|i: int|
        0 <= i < qs.len() ==> ((#[trigger] qs[i]).cards > 0 <==> ps[i].cards > 0));
    lemma_alive_len_pointwise(qs, ps);
}

/// Law: after a `Witch` reveal, every player matching the identity holds no
/// cards, and no alive player carries that identity any more.
pub proof fn lemma_witch_reveal_eliminates(ps: Seq<PlayerView>, id: Seq<char>)
    ensures
        reveal_for_id(ps, id, CardType::Witch).len() == ps.len(),
        forall|i: int|
            0 <= i < ps.len() && (#[trigger] ps[i]).id == id ==> reveal_for_id(
                ps,
                id,
                CardType::Witch,
            )[i].cards == 0,
        forall|j: int|
            0 <= j < alive_players(reveal_for_id(ps, id, CardType::Witch)).len() ==> (
            #[trigger] alive_players(reveal_for_id(ps, id, CardType::Witch))[j]).id != id,
{
    let qs = reveal_for_id(ps, id, CardType::Witch);
    let pred = |p: PlayerView| p.cards > 0;
    assert forall|j: int| 0 <= j < alive_players(qs).len() implies (#[trigger] alive_players(
        qs,
    )[j]).id != id by {
        let q = alive_players(qs)[j];
        qs.lemma_filter_pred(pred, j);
        alive_players(qs).lemma_index_contains(j);
        qs.lemma_filter_contains_rev(pred, q);
        let i = choose|i: int| 0 <= i < qs.len() && qs[i] == q;
        assert(ps[i].id == id ==> qs[i].cards == 0);
    }
}

/// Law: killing two players in one combined transition is the same roster
/// as revealing a `Witch` for the first and then for the second.
pub proof fn lemma_kill_pair_is_two_witch_reveals(ps: Seq<PlayerView>, a: Seq<char>, b: Seq<char>)
    ensures
        kill_ids(ps, seq![a, b]) == reveal_for_id(
            reveal_for_id(ps, a, CardType::Witch),
            b,
            CardType::Witch,
        ),
{
    let ids = seq![a, b];
    let lhs = kill_ids(ps, ids);
    let rhs = reveal_for_id(reveal_for_id(ps, a, CardType::Witch), b, CardType::Witch);
    assert forall|i: int| 0 <= i < ps.len() implies lhs[i] == rhs[i] by {
        if ps[i].id == a {
            assert(ids[0] == a);
            assert(ids.contains(ps[i].id));
        } else if ps[i].id == b {
            assert(ids[1] == b);
            assert(ids.contains(ps[i].id));
        } else {
            assert forall|k: int| 0 <= k < ids.len() implies ids[k] != ps[i].id by {
                assert(ids[0] == a && ids[1] == b);
            }
            assert(!ids.contains(ps[i].id));
        }
    }
    assert(lhs =~= rhs);
}

/// Law: revealing a `Witch` twice for the same identity gives the same
/// roster as revealing it once; the second reveal changes nothing.
pub proof fn lemma_witch_reveal_idempotent(ps: Seq<PlayerView>, id: Seq<char>)
    ensures
        reveal_for_id(reveal_for_id(ps, id, CardType::Witch), id, CardType::Witch)
            == reveal_for_id(ps, id, CardType::Witch),
{
    let once = reveal_for_id(ps, id, CardType::Witch);
    let twice = reveal_for_id(once, id, CardType::Witch);
    assert forall|i: int| 0 <= i < ps.len() implies twice[i] == once[i] by {
        assert(once[i].id == ps[i].id);
    }
    assert(twice =~= once);
}

/// Law: every transition keeps the roster length and every seat's identity,
/// so a player handle captured before a transition still targets the same
/// seat afterwards: matching goes by identity, never by card count.
pub proof fn lemma_transitions_preserve_identities(
    ps: Seq<PlayerView>,
    id: Seq<char>,
    card: CardType,
    ids: Seq<Seq<char>>,
)
    ensures
        reveal_for_id(ps, id, card).len() == ps.len(),
        forall|i: int|
            0 <= i < ps.len() ==> (#[trigger] reveal_for_id(ps, id, card)[i]).id == ps[i].id,
        kill_ids(ps, ids).len() == ps.len(),
        forall|i: int| 0 <= i < ps.len() ==> (#[trigger] kill_ids(ps, ids)[i]).id == ps[i].id,
{
}

} // verus!
