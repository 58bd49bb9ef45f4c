//! A verifiable random-draw protocol for a multiplayer card game.
//!
//! Each player derives a pseudorandom card from a per-round public
//! commitment string and a private key held in a VRF key pair, and can
//! prove to anyone holding the public key that the card was computed
//! from exactly that commitment, without revealing the private key.

pub mod card;
pub mod commit;
pub mod player;
pub mod round;
pub mod session;
pub mod vrf;
