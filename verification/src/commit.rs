//! Commitment inputs: the shared byte string that binds a round's draws,
//! and the domain-separation context for the VRF transcripts.

use vstd::prelude::*;
use vstd::arithmetic::div_mod::lemma_fundamental_div_mod;

verus! {

/// The domain-separation context under which every VRF transcript of
/// this protocol is built: the bytes of `"example"`.
pub open spec fn context_spec() -> Seq<u8> {
    seq![101u8, 120u8, 97u8, 109u8, 112u8, 108u8, 101u8]
}

/// The fixed prefix of every round's commitment input: the bytes of
/// `"poker_game"`.
pub open spec fn commit_prefix() -> Seq<u8> {
    seq![112u8, 111u8, 107u8, 101u8, 114u8, 95u8, 103u8, 97u8, 109u8, 101u8]
}

/// The decimal digits of `n`, most significant first, as ASCII bytes.
pub open spec fn dec_digits(n: nat) -> Seq<u8>
    decreases n,
{
    if n < 10 {
        seq![(n + 48) as u8]
    } else {
        dec_digits(n / 10) + seq![(n % 10 + 48) as u8]
    }
}

/// The commitment input shared by all players in round `round`: the
/// fixed prefix followed by the round number in decimal.
pub open spec fn commitment_spec(round: u64) -> Seq<u8> {
    commit_prefix() + dec_digits(round as nat)
}

/// The number that a sequence of ASCII decimal digits denotes.
pub open spec fn digits_val(s: Seq<u8>) -> int
    decreases s.len(),
{
    if s.len() == 0 {
        0
    } else {
        digits_val(s.drop_last()) * 10 + (s.last() - 48)
    }
}

/// The decimal rendering of `n` denotes `n` itself, and is never empty.
proof fn lemma_dec_digits_val(n: nat)
    ensures
        digits_val(dec_digits(n)) == n,
        dec_digits(n).len() >= 1,
    decreases n,
{
    if n < 10 {
        let s = dec_digits(n);
        assert(digits_val(Seq::<u8>::empty()) == 0);
        assert(s.drop_last() =~= Seq::<u8>::empty());
    } else {
        lemma_dec_digits_val(n / 10);
        let s = dec_digits(n);
        assert(s.drop_last() =~= dec_digits(n / 10));
        lemma_fundamental_div_mod(n as int, 10);
    }
}

/// Distinct numbers have distinct decimal renderings.
proof fn lemma_dec_digits_injective(n: nat, m: nat)
    requires
        dec_digits(n) == dec_digits(m),
    ensures
        n == m,
{
    lemma_dec_digits_val(n);
    lemma_dec_digits_val(m);
}

/// Anti-replay: distinct rounds always get distinct commitment inputs,
/// so a proof made for one round can never be conflated with another.
pub proof fn lemma_commitments_distinct(n: u64, m: u64)
    requires
        n != m,
    ensures
        commitment_spec(n) != commitment_spec(m),
{
    if commitment_spec(n) == commitment_spec(m) {
        let dn = dec_digits(n as nat);
        let dm = dec_digits(m as nat);
        let p = commit_prefix();
        assert((p + dn).len() == (p + dm).len());
        assert(dn.len() == dm.len());
        assert forall|i: int| 0 <= i < dn.len() implies dn[i] == dm[i] by {
            assert((p + dn)[p.len() + i] == dn[i]);
            assert((p + dm)[p.len() + i] == dm[i]);
        }
        assert(dn =~= dm);
        lemma_dec_digits_injective(n as nat, m as nat);
    }
}

/// Builds the domain-separation context bytes (`"example"`).
pub fn context_bytes() -> (r: Vec<u8>)
    ensures
        r@ == context_spec(),
{
    let mut v: Vec<u8> = Vec::new();
    v.push(101);
    v.push(120);
    v.push(97);
    v.push(109);
    v.push(112);
    v.push(108);
    v.push(101);
    assert(v@ =~= context_spec());
    v
}

/// Appends the decimal digits of `n` to `out`.
fn push_decimal(n: u64, out: &mut Vec<u8>)
    ensures
        final(out)@ == old(out)@ + dec_digits(n as nat),
    decreases n,
{
    if n < 10 {
        out.push((n + 48) as u8);
        assert(out@ =~= old(out)@ + dec_digits(n as nat));
    } else {
        push_decimal(n / 10, out);
        out.push((n % 10 + 48) as u8);
        assert(out@ =~= old(out)@ + dec_digits(n as nat));
    }
}

/// Builds the commitment input for `round`: the bytes of the string
/// `poker_game` followed by the round number in decimal.
pub fn build_commitment(round: u64) -> (r: Vec<u8>)
    ensures
        r@ == commitment_spec(round),
{
    let mut v: Vec<u8> = Vec::new();
    v.push(112);
    v.push(111);
    v.push(107);
    v.push(101);
    v.push(114);
    v.push(95);
    v.push(103);
    v.push(97);
    v.push(109);
    v.push(101);
    assert(v@ =~= commit_prefix());
    push_decimal(round, &mut v);
    v
}

} // verus!
