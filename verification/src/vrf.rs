//! The VRF engine boundary: every call into the `schnorrkel` crate is
//! made here, behind trusted wrappers over plain byte vectors.
//!
//! Key pairs, VRF outputs and VRF proofs travel through the library as
//! their serialized bytes; the wrappers decode them, make one call each,
//! and re-encode the result.

use vstd::prelude::*;

verus! {

/// Whether `schnorrkel::Keypair::from_bytes` accepts `kp` — that is,
/// whether `kp` is the serialization of a well-formed key pair.
pub uninterp spec fn keypair_decodes(kp: Seq<u8>) -> bool;

/// The VRF output bytes (the serialized pre-output point) that
/// `Keypair::vrf_sign` produces for the key pair serialized as `kp` on
/// the transcript built from context `ctx` and message `input`. The
/// output point is a deterministic function of these arguments.
pub uninterp spec fn vrf_output_of(ctx: Seq<u8>, kp: Seq<u8>, input: Seq<u8>) -> Seq<u8>;

/// Whether `PublicKey::vrf_verify` (after decoding `preout` and `pf`
/// with `VRFPreOut::from_bytes` and `VRFProof::from_bytes`) accepts the
/// claim that `preout` is the VRF output of the key pair `kp` on the
/// transcript built from `ctx` and `input`, as attested by the proof
/// `pf`. Verification is deterministic in all four arguments.
pub uninterp spec fn vrf_accepts(ctx: Seq<u8>, kp: Seq<u8>, input: Seq<u8>, preout: Seq<u8>, pf: Seq<u8>) -> bool;

/// Relies on `schnorrkel::Keypair::generate_with` with the operating
/// system's entropy source, and on `Keypair::to_bytes`, whose 96-byte
/// result `Keypair::from_bytes` accepts again (a round trip the crate
/// documents). The key pair itself is random: nothing more is promised.
#[verifier::external_body]
pub(crate) fn generate_keypair() -> (r: Vec<u8>)
    ensures
        r@.len() == 96,
        keypair_decodes(r@),
{
    let keypair = schnorrkel::Keypair::generate_with(rand::rngs::OsRng);
    keypair.to_bytes().to_vec()
}

/// Relies on `schnorrkel::Keypair::vrf_sign` over the transcript
/// `signing_context(ctx).bytes(input)`: the 32-byte pre-output is a
/// deterministic function of key pair, context and message, and the
/// 64-byte proof it returns convinces `vrf_verify` for exactly this
/// context and message under this key pair and for no other message —
/// the binding that makes the VRF verifiable.
#[verifier::external_body]
pub(crate) fn vrf_sign_bytes(kp: &Vec<u8>, ctx: &Vec<u8>, input: &[u8]) -> (r: (Vec<u8>, Vec<u8>))
    requires
        keypair_decodes(kp@),
    ensures
        r.0@ == vrf_output_of(ctx@, kp@, input@),
        r.0@.len() == 32,
        r.1@.len() == 64,
        forall|other: Seq<u8>| #[trigger] vrf_accepts(ctx@, kp@, other, r.0@, r.1@) <==> other == input@,
{
    let keypair = schnorrkel::Keypair::from_bytes(kp).unwrap();
    let transcript = schnorrkel::signing_context(ctx).bytes(input);
    let (inout, proof, _) = keypair.vrf_sign(transcript);
    (inout.to_preout().to_bytes().to_vec(), proof.to_bytes().to_vec())
}

/// Relies on `schnorrkel::PublicKey::vrf_verify` over the transcript
/// `signing_context(ctx).bytes(input)`, with `VRFPreOut::from_bytes`
/// and `VRFProof::from_bytes` to decode the claimed output and proof:
/// acceptance is deterministic in the four byte strings, and bytes that
/// do not decode are rejected.
#[verifier::external_body]
pub(crate) fn vrf_verify_bytes(
    kp: &Vec<u8>,
    ctx: &Vec<u8>,
    input: &[u8],
    preout: &Vec<u8>,
    pf: &Vec<u8>,
) -> (r: bool)
    requires
        keypair_decodes(kp@),
    ensures
        r == vrf_accepts(ctx@, kp@, input@, preout@, pf@),
{
    let keypair = schnorrkel::Keypair::from_bytes(kp).unwrap();
    let transcript = schnorrkel::signing_context(ctx).bytes(input);
    let decoded_preout = schnorrkel::vrf::VRFPreOut::from_bytes(preout);
    let decoded_proof = schnorrkel::vrf::VRFProof::from_bytes(pf);
    match (decoded_preout, decoded_proof) {
        (Ok(po), Ok(p)) => keypair.public.vrf_verify(transcript, &po, &p).is_ok(),
        _ => false,
    }
}

} // verus!
