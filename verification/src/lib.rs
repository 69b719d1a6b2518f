//! A confidential-transaction protocol engine over the ristretto255 group:
//! stealth one-time addressing, Pedersen-commitment tokens, a sigma-protocol
//! sum proof, a wrapped range proof, a one-time Schnorr-style signature, a
//! multilayer linkable ring signature (MLSAG), and the single-spend and
//! ring-spend transaction flows composed from them.

use vstd::prelude::*;

pub mod account;
pub mod aes;
pub mod bytes;
pub mod confidential_transaction;
pub mod error;
pub mod group;
pub mod hash;
pub mod material;
pub mod mlsag;
pub mod prove;
pub mod ring_confidential_transaction;
pub mod signature;
pub mod token;
pub mod transcript;

verus! {

} // verus!
