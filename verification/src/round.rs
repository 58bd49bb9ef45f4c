//! One round's result and the winner selection over revealed cards.

use vstd::prelude::*;

verus! {

/// What one round produced for one player: the identifier the session
/// knows the player by, the revealed card (absent if the player had not
/// drawn), and whether the player's proof verified.
pub struct PlayerOutcome {
    pub id: u64,
    pub card: Option<u8>,
    pub valid: bool,
}

/// The result of one round: its number, one outcome per player in
/// registration order, and the winning player's identifier, absent only
/// when the round had no players.
pub struct RoundResult {
    pub round: u64,
    pub outcomes: Vec<PlayerOutcome>,
    pub winner: Option<u64>,
}

/// The value a player competes with: the revealed card, or 0 for a
/// player with no revealed card (who is thus never preferred over any
/// drawn card above 0, but ties with an actual 0 — a documented quirk
/// kept for compatibility).
pub open spec fn effective_value(card: Option<u8>) -> u8 {
    match card {
        Some(c) => c,
        None => 0,
    }
}

/// The competing values of a round's outcomes, in player order.
pub open spec fn effective_values(outcomes: Seq<PlayerOutcome>) -> Seq<u8> {
    outcomes.map_values(|o: PlayerOutcome| effective_value(o.card))
}

/// Index `i` wins over `values`: it holds the maximum, and is the first
/// index to do so.
pub open spec fn is_winner_index(values: Seq<u8>, i: int) -> bool {
    &&& 0 <= i < values.len()
    &&& forall|j: int| 0 <= j < values.len() ==> values[j] <= values[i]
    &&& forall|j: int| 0 <= j < i ==> values[j] < values[i]
}

/// Picks the winner among competing values: the first index holding the
/// maximum value, or `None` exactly when there are no values.
pub fn select_winner(values: &Vec<u8>) -> (r: Option<usize>)
    ensures
        r is None <==> values@.len() == 0,
        r matches Some(i) ==> is_winner_index(values@, i as int),
{
    if values.len() == 0 {
        return None;
    }
    let mut best: usize = 0;
    let mut k: usize = 1;
    while k < values.len()
        invariant
            0 <= best < k <= values@.len(),
            forall|j: int| 0 <= j < k ==> values@[j] <= values@[best as int],
            forall|j: int| 0 <= j < best ==> values@[j] < values@[best as int],
        decreases values@.len() - k,
    {
        if values[k] > values[best] {
            best = k;
        }
        k = k + 1;
    }
    Some(best)
}

} // verus!
