//! The game session: the registered players, keyed by unique
//! identifiers, and the round counter that drives the round engine.

use vstd::prelude::*;
use crate::card::CARD_RANGE;
use crate::commit::{build_commitment, commitment_spec};
use crate::player::Player;
use crate::round::{effective_value, effective_values, is_winner_index, select_winner, PlayerOutcome, RoundResult};

verus! {

/// A session: players in registration order, each under an identifier
/// unique within the session, and the number of rounds played so far.
pub struct GameSession {
    players: Vec<(u64, Player)>,
    round: u64,
}

impl GameSession {
    /// Every player is well formed and no identifier repeats.
    #[verifier::type_invariant]
    spec fn inv(self) -> bool {
        &&& forall|i: int| 0 <= i < self.players@.len() ==> (#[trigger] self.players@[i].1).wf()
        &&& forall|i: int, j: int|
            0 <= i < j < self.players@.len() ==> (#[trigger] self.players@[i].0) != (
            #[trigger] self.players@[j].0)
    }

    /// How many rounds this session has completed.
    pub closed spec fn round_no(self) -> u64 {
        self.round
    }

    /// The registered identifiers, in registration order.
    pub closed spec fn ids(self) -> Seq<u64> {
        self.players@.map_values(|e: (u64, Player)| e.0)
    }

    /// The commitment input each player last drew with, in player order.
    pub closed spec fn drawn_inputs(self) -> Seq<Option<Seq<u8>>> {
        self.players@.map_values(|e: (u64, Player)| e.1.drawn())
    }

    /// The card each player can currently reveal, in player order.
    pub closed spec fn cards(self) -> Seq<Option<u8>> {
        self.players@.map_values(|e: (u64, Player)| e.1.revealed_card())
    }

    /// Creates a session with no players, before any round.
    pub fn new() -> (s: GameSession)
        ensures
            s.round_no() == 0,
            s.ids() == Seq::<u64>::empty(),
            s.drawn_inputs() == Seq::<Option<Seq<u8>>>::empty(),
    {
        let s = GameSession { players: Vec::new(), round: 0 };
        proof {
            assert(s.ids() =~= Seq::<u64>::empty());
            assert(s.drawn_inputs() =~= Seq::<Option<Seq<u8>>>::empty());
        }
        s
    }

    /// How many players are registered.
    pub fn player_count(&self) -> (n: usize)
        ensures
            n == self.ids().len(),
    {
        self.players.len()
    }

    /// How many rounds this session has completed.
    pub fn rounds_played(&self) -> (n: u64)
        ensures
            n == self.round_no(),
    {
        self.round
    }

    /// Registers a fresh player under `id`. Fails, changing nothing,
    /// exactly when the identifier is already taken.
    pub fn add_player(&mut self, id: u64) -> (added: bool)
        ensures
            added <==> !old(self).ids().contains(id),
            added ==> final(self).ids() == old(self).ids().push(id),
            added ==> final(self).drawn_inputs() == old(self).drawn_inputs().push(
                None::<Seq<u8>>,
            ),
            !added ==> final(self).ids() == old(self).ids(),
            !added ==> final(self).drawn_inputs() == old(self).drawn_inputs(),
            final(self).round_no() == old(self).round_no(),
    {
        proof {
            use_type_invariant(&*self);
        }
        let ghost orig = self.players@;
        let n = self.players.len();
        let mut i: usize = 0;
        while i < n
            invariant
                self.players@ == orig,
                n == orig.len(),
                i <= n,
                forall|j: int| 0 <= j < i ==> (#[trigger] orig[j].0) != id,
            decreases n - i,
        {
            if self.players[i].0 == id {
                proof {
                    assert(old(self).ids()[i as int] == id);
                    assert(old(self).ids().contains(id));
                    assert(final(self).ids() =~= old(self).ids());
                    assert(final(self).drawn_inputs() =~= old(self).drawn_inputs());
                }
                return false;
            }
            i = i + 1;
        }
        proof {
            assert forall|j: int| 0 <= j < orig.len() implies old(self).ids()[j] != id by {
                assert(orig[j].0 != id);
            }
            if old(self).ids().contains(id) {
                let j = choose|j: int| 0 <= j < old(self).ids().len() && old(self).ids()[j] == id;
                assert(old(self).ids()[j] != id);
            }
        }
        let p = Player::new();
        let mut players: Vec<(u64, Player)> = Vec::new();
        std::mem::swap(&mut players, &mut self.players);
        players.push((id, p));
        self.players = players;
        proof {
            assert(final(self).ids() =~= old(self).ids().push(id));
            assert(final(self).drawn_inputs() =~= old(self).drawn_inputs().push(None::<Seq<u8>>));
        }
        true
    }

    /// Plays one full round: builds the round's commitment input, has
    /// every player draw with it, collects each player's revealed card
    /// and verification verdict, and selects the winner. Every verdict
    /// of an honestly played round is positive, every revealed card is
    /// present and in range, and afterwards every player's record is
    /// bound to this round's commitment input.
    pub fn play_round(&mut self) -> (r: RoundResult)
        requires
            old(self).round_no() < u64::MAX,
        ensures
            final(self).round_no() == old(self).round_no() + 1,
            final(self).ids() == old(self).ids(),
            forall|i: int|
                0 <= i < final(self).drawn_inputs().len() ==> final(self).drawn_inputs()[i]
                    == Some(commitment_spec((old(self).round_no() + 1) as u64)),
            r.round == old(self).round_no() + 1,
            r.outcomes@.len() == old(self).ids().len(),
            forall|i: int| 0 <= i < r.outcomes@.len() ==> (#[trigger] r.outcomes@[i]).id == old(
                self).ids()[i],
            forall|i: int| 0 <= i < r.outcomes@.len() ==> (#[trigger] r.outcomes@[i]).valid,
            forall|i: int| 0 <= i < r.outcomes@.len() ==> (#[trigger] r.outcomes@[i]).card is Some,
            forall|i: int|
                0 <= i < r.outcomes@.len() ==> (#[trigger] r.outcomes@[i]).card == final(
                    self).cards()[i],
            forall|i: int|
                0 <= i < r.outcomes@.len() ==> ((#[trigger] r.outcomes@[i]).card matches Some(c)
                    ==> c < CARD_RANGE),
            r.winner is None <==> r.outcomes@.len() == 0,
            r.winner matches Some(w) ==> exists|i: int|
                #[trigger] is_winner_index(effective_values(r.outcomes@), i) && r.outcomes@[i].id
                    == w,
    {
        proof {
            use_type_invariant(&*self);
        }
        let ghost orig = self.players@;
        let round = self.round + 1;
        let input = build_commitment(round);
        let mut pool: Vec<(u64, Player)> = Vec::new();
        std::mem::swap(&mut pool, &mut self.players);
        let mut done: Vec<(u64, Player)> = Vec::new();
        let mut outcomes: Vec<PlayerOutcome> = Vec::new();
        let mut values: Vec<u8> = Vec::new();
        proof {
            assert(pool@ =~= orig.skip(0));
        }
        while pool.len() > 0
            invariant
                self.round == old(self).round,
                round == old(self).round + 1,
                input@ == commitment_spec(round),
                done@.len() <= orig.len(),
                pool@ =~= orig.skip(done@.len() as int),
                outcomes@.len() == done@.len(),
                values@.len() == done@.len(),
                forall|i: int| 0 <= i < orig.len() ==> (#[trigger] orig[i].1).wf(),
                forall|i: int, j: int|
                    0 <= i < j < orig.len() ==> (#[trigger] orig[i].0) != (#[trigger] orig[j].0),
                forall|j: int| 0 <= j < done@.len() ==> (#[trigger] done@[j]).0 == orig[j].0,
                forall|j: int| 0 <= j < done@.len() ==> (#[trigger] done@[j]).1.wf(),
                forall|j: int|
                    0 <= j < done@.len() ==> (#[trigger] done@[j]).1.drawn() == Some(input@),
                forall|j: int|
                    0 <= j < done@.len() ==> (#[trigger] outcomes@[j]).id == orig[j].0,
                forall|j: int| 0 <= j < done@.len() ==> (#[trigger] outcomes@[j]).valid,
                forall|j: int| 0 <= j < done@.len() ==> (#[trigger] outcomes@[j]).card is Some,
                forall|j: int|
                    0 <= j < done@.len() ==> (#[trigger] outcomes@[j]).card
                        == done@[j].1.revealed_card(),
                forall|j: int|
                    0 <= j < done@.len() ==> ((#[trigger] outcomes@[j]).card matches Some(c) ==> c
                        < CARD_RANGE),
                forall|j: int|
                    0 <= j < done@.len() ==> (#[trigger] values@[j]) == effective_value(
                        outcomes@[j].card),
            decreases pool@.len(),
        {
            let ghost k = done@.len() as int;
            proof {
                assert(orig.skip(k)[0] == orig[k]);
            }
            let (id, mut p) = pool.remove(0);
            proof {
                assert(orig.skip(k).remove(0) =~= orig.skip(k + 1));
            }
            p.draw_card(input.as_slice());
            let card = p.reveal_card();
            let valid = p.verify_card(input.as_slice());
            let value = match card {
                Some(c) => c,
                None => 0,
            };
            outcomes.push(PlayerOutcome { id, card, valid });
            values.push(value);
            done.push((id, p));
        }
        proof {
            assert(done@.len() == orig.len());
        }
        self.players = done;
        self.round = round;
        proof {
            assert(final(self).ids() =~= old(self).ids());
            assert(values@ =~= effective_values(outcomes@));
        }
        let winner_index = select_winner(&values);
        let winner = match winner_index {
            Some(i) => Some(outcomes[i].id),
            None => None,
        };
        RoundResult { round, outcomes, winner }
    }

    /// Drives the round engine through `count` further rounds, one
    /// after the other, and collects their results in order.
    pub fn play_rounds(&mut self, count: u64) -> (results: Vec<RoundResult>)
        requires
            old(self).round_no() + count <= u64::MAX,
        ensures
            final(self).round_no() == old(self).round_no() + count,
            final(self).ids() == old(self).ids(),
            results@.len() == count,
            forall|i: int|
                0 <= i < results@.len() ==> (#[trigger] results@[i]).round == old(self).round_no()
                    + i + 1,
            forall|i: int|
                0 <= i < results@.len() ==> (#[trigger] results@[i]).outcomes@.len() == old(
                    self).ids().len(),
            forall|i: int, j: int|
                0 <= i < results@.len() && 0 <= j < results@[i].outcomes@.len() ==> (
                #[trigger] results@[i].outcomes@[j]).valid,
    {
        let mut results: Vec<RoundResult> = Vec::new();
        let mut played: u64 = 0;
        while played < count
            invariant
                played <= count,
                self.round_no() == old(self).round_no() + played,
                self.round_no() + (count - played) <= u64::MAX,
                self.ids() == old(self).ids(),
                results@.len() == played,
                forall|i: int|
                    0 <= i < results@.len() ==> (#[trigger] results@[i]).round == old(
                        self).round_no() + i + 1,
                forall|i: int|
                    0 <= i < results@.len() ==> (#[trigger] results@[i]).outcomes@.len() == old(
                        self).ids().len(),
                forall|i: int, j: int|
                    0 <= i < results@.len() && 0 <= j < results@[i].outcomes@.len() ==> (
                    #[trigger] results@[i].outcomes@[j]).valid,
            decreases count - played,
        {
            let r = self.play_round();
            results.push(r);
            played = played + 1;
        }
        results
    }
}

} // verus!
