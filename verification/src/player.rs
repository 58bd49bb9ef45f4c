//! A player: a VRF key pair plus the per-round record of the last draw.

use vstd::prelude::*;
use crate::card::{map_card, mapped_card, CARD_RANGE};
use crate::commit::{context_bytes, context_spec};
use crate::vrf::{generate_keypair, keypair_decodes, vrf_accepts, vrf_output_of, vrf_sign_bytes, vrf_verify_bytes};

verus! {

/// The VRF artifacts of one draw: output and proof are created together
/// by the engine, so they are stored together.
struct VrfRecord {
    output: Vec<u8>,
    pf: Vec<u8>,
}

/// One player: an identity (a VRF key pair, serialized) and the record
/// of the current round's draw, absent until `draw_card` is called and
/// overwritten by the next round's draw.
pub struct Player {
    keypair: Vec<u8>,
    record: Option<VrfRecord>,
    drawn: Ghost<Option<Seq<u8>>>,
}

impl Player {
    /// The commitment input this player last drew with, if any.
    pub closed spec fn drawn(self) -> Option<Seq<u8>> {
        self.drawn@
    }

    /// The serialized key pair that is this player's identity.
    pub closed spec fn key(self) -> Seq<u8> {
        self.keypair@
    }

    /// The card this player can currently reveal: the mapped VRF output
    /// of the last draw, absent before any draw.
    pub closed spec fn revealed_card(self) -> Option<u8> {
        match self.drawn@ {
            Some(input) => mapped_card(vrf_output_of(context_spec(), self.keypair@, input)),
            None => None,
        }
    }

    /// Whether verification of this player's current record against
    /// `input` succeeds: exactly when the player has drawn, with that
    /// same input.
    pub open spec fn verify_ok(self, input: Seq<u8>) -> bool {
        match self.drawn() {
            Some(d) => d == input,
            None => false,
        }
    }

    /// Well-formedness: the key pair decodes, and the stored record —
    /// present exactly when a draw has happened — holds the VRF output
    /// of the drawn input together with a proof that verifies for that
    /// input and for no other.
    pub closed spec fn wf(self) -> bool {
        &&& self.keypair@.len() == 96
        &&& keypair_decodes(self.keypair@)
        &&& match self.record {
            Some(rec) => match self.drawn@ {
                Some(input) => {
                    &&& rec.output@ == vrf_output_of(context_spec(), self.keypair@, input)
                    &&& rec.output@.len() == 32
                    &&& forall|other: Seq<u8>|
                        #[trigger] vrf_accepts(context_spec(), self.keypair@, other, rec.output@, rec.pf@)
                            <==> other == input
                },
                None => false,
            },
            None => self.drawn@ is None,
        }
    }

    /// Creates a player with a freshly generated key pair and no draw.
    pub fn new() -> (p: Player)
        ensures
            p.wf(),
            p.drawn() is None,
            p.revealed_card() is None,
    {
        Player { keypair: generate_keypair(), record: None, drawn: Ghost(None) }
    }

    /// Draws this round's card: asks the VRF engine to sign the shared
    /// commitment input and overwrites the player's record with the
    /// resulting output and proof. The identity is unchanged.
    pub fn draw_card(&mut self, input: &[u8])
        requires
            old(self).wf(),
        ensures
            final(self).wf(),
            final(self).drawn() == Some(input@),
            final(self).key() == old(self).key(),
    {
        let ctx = context_bytes();
        let (output, pf) = vrf_sign_bytes(&self.keypair, &ctx, input);
        self.record = Some(VrfRecord { output, pf });
        self.drawn = Ghost(Some(input@));
    }

    /// Reveals the card drawn this round: the mapped VRF output, or
    /// `None` if the player has not drawn (or, defensively, if the
    /// engine handed back fewer than eight bytes of output).
    pub fn reveal_card(&self) -> (r: Option<u8>)
        requires
            self.wf(),
        ensures
            r == self.revealed_card(),
            r matches Some(c) ==> c < CARD_RANGE,
            self.drawn() is Some ==> r is Some,
    {
        match &self.record {
            Some(rec) => map_card(&rec.output),
            None => None,
        }
    }

    /// Verifies this player's current record against `input`: true
    /// exactly when the player has drawn with this very input. Pure:
    /// may be called any number of times by anyone holding the input.
    pub fn verify_card(&self, input: &[u8]) -> (r: bool)
        requires
            self.wf(),
        ensures
            r == self.verify_ok(input@),
    {
        match &self.record {
            Some(rec) => {
                let ctx = context_bytes();
                vrf_verify_bytes(&self.keypair, &ctx, input, &rec.output, &rec.pf)
            },
            None => false,
        }
    }
}

/// A freshly constructed player is inert: it can reveal no card, and no
/// verification of it succeeds, whatever the input.
pub proof fn lemma_fresh_player_inert(p: Player)
    requires
        p.drawn() is None,
    ensures
        p.revealed_card() is None,
        forall|input: Seq<u8>| !p.verify_ok(input),
{
}

/// After a draw, the revealed card is always present and lies in
/// `[0, CARD_RANGE)`: the round-trip through the card mapper stays in
/// range.
pub proof fn lemma_drawn_card_in_range(p: Player)
    requires
        p.wf(),
        p.drawn() is Some,
    ensures
        p.revealed_card() matches Some(c) && c < CARD_RANGE,
{
}

/// Soundness of the commit-reveal pairing: verifying with the same
/// input the player drew with succeeds.
pub proof fn lemma_verify_matching_input(p: Player, input: Seq<u8>)
    requires
        p.drawn() == Some(input),
    ensures
        p.verify_ok(input),
{
}

/// Binding: the proof is input-specific, so verifying with any input
/// other than the one drawn with fails.
pub proof fn lemma_verify_binding(p: Player, drawn_input: Seq<u8>, other: Seq<u8>)
    requires
        p.drawn() == Some(drawn_input),
        other != drawn_input,
    ensures
        !p.verify_ok(other),
{
}

/// Determinism: with the player's record unchanged, repeated
/// verifications against the same input always return the same boolean.
pub proof fn lemma_verify_deterministic(p: Player, input: Seq<u8>, r1: bool, r2: bool)
    requires
        r1 == p.verify_ok(input),
        r2 == p.verify_ok(input),
    ensures
        r1 == r2,
{
}

} // verus!
