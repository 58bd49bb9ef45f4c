//! The card mapper: turns VRF output bytes into a card value in `[0, 52)`.

use vstd::prelude::*;

verus! {

/// How many distinct card values exist.
pub const CARD_RANGE: u64 = 52;

/// The first eight bytes of `s`, read as a little-endian unsigned integer.
pub open spec fn le_u64_of(s: Seq<u8>) -> int
    recommends
        s.len() >= 8,
{
    s[0] + s[1] * 0x100 + s[2] * 0x1_0000 + s[3] * 0x100_0000 + s[4] * 0x1_0000_0000
        + s[5] * 0x100_0000_0000 + s[6] * 0x1_0000_0000_0000 + s[7] * 0x100_0000_0000_0000
}

/// The card value that a sequence of VRF output bytes denotes, when it
/// holds enough material: the first eight bytes, little endian, reduced
/// modulo the number of cards.
pub open spec fn card_value_of(s: Seq<u8>) -> u8
    recommends
        s.len() >= 8,
{
    (le_u64_of(s) % (CARD_RANGE as int)) as u8
}

/// Total form of the mapping: absent when fewer than eight bytes are
/// available, the bounded card value otherwise.
pub open spec fn mapped_card(s: Seq<u8>) -> Option<u8> {
    if s.len() < 8 {
        None
    } else {
        Some(card_value_of(s))
    }
}

/// Maps VRF output bytes to a card value in `[0, CARD_RANGE)`, or `None`
/// if fewer than eight bytes of output material are available.
pub fn map_card(bytes: &Vec<u8>) -> (r: Option<u8>)
    ensures
        r == mapped_card(bytes@),
        r matches Some(c) ==> c < CARD_RANGE,
{
    if bytes.len() < 8 {
        return None;
    }
    let b0 = bytes[0] as u64;
    let b1 = bytes[1] as u64;
    let b2 = bytes[2] as u64;
    let b3 = bytes[3] as u64;
    let b4 = bytes[4] as u64;
    let b5 = bytes[5] as u64;
    let b6 = bytes[6] as u64;
    let b7 = bytes[7] as u64;
    let value: u64 = b0 + b1 * 0x100 + b2 * 0x1_0000 + b3 * 0x100_0000 + b4 * 0x1_0000_0000
        + b5 * 0x100_0000_0000 + b6 * 0x1_0000_0000_0000 + b7 * 0x100_0000_0000_0000;
    Some((value % CARD_RANGE) as u8)
}

} // verus!
