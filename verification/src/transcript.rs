//! Fiat–Shamir challenges, derived through merlin transcripts.
//!
//! Each protocol has one fixed transcript shape; each shape gets one
//! trusted wrapper whose 32 challenge bytes are named as a function of the
//! appended messages, and the reduction to a scalar goes through the same
//! trusted reduction the rest of the library uses.

use vstd::prelude::*;
use crate::group::{
    point_bytes, point_views, scalar_from_bytes_mod_order, scalar_mod_of, Point, Scalar,
};

verus! {

/// The challenge bytes of the one-time-signature transcript: domain
/// "ct_sign", binding the public key, the blinding point and the message.
pub uninterp spec fn sign_challenge_bytes_of(pk: Seq<u8>, bp: Seq<u8>, msg: Seq<u8>) -> Seq<u8>;

/// The challenge bytes of the sum-proof transcript: domain "sum_proof",
/// binding the two output commitments and the input commitment.
pub uninterp spec fn sum_challenge_bytes_of(ca: Seq<u8>, cb: Seq<u8>, c: Seq<u8>) -> Seq<u8>;

/// The challenge bytes of one MLSAG ring position: domain "mlsag", binding
/// the message and, for every key of the position, its two commitment
/// terms.
pub uninterp spec fn mlsag_challenge_bytes_of(
    msg: Seq<u8>,
    ls: Seq<Seq<u8>>,
    rs: Seq<Seq<u8>>,
) -> Seq<u8>;

/// The one-time-signature challenge, as a scalar.
pub open spec fn sign_challenge_of(pk: Seq<u8>, bp: Seq<u8>, msg: Seq<u8>) -> Seq<u8> {
    scalar_mod_of(sign_challenge_bytes_of(pk, bp, msg))
}

/// The sum-proof challenge, as a scalar.
pub open spec fn sum_challenge_of(ca: Seq<u8>, cb: Seq<u8>, c: Seq<u8>) -> Seq<u8> {
    scalar_mod_of(sum_challenge_bytes_of(ca, cb, c))
}

/// An MLSAG ring-position challenge, as a scalar.
pub open spec fn mlsag_challenge_of(msg: Seq<u8>, ls: Seq<Seq<u8>>, rs: Seq<Seq<u8>>) -> Seq<u8> {
    scalar_mod_of(mlsag_challenge_bytes_of(msg, ls, rs))
}

/// Relies on merlin::Transcript (new, append_message, challenge_bytes):
/// the challenge bytes are a function of the appended messages alone.
/// merlin rejects a message of 2^32 bytes or more, so the message length
/// is bounded.
#[verifier::external_body]
fn sign_challenge_bytes(public_key: &Point, blind_point: &Point, msg: &Vec<u8>) -> (r: Vec<u8>)
    requires
        msg@.len() < 0x1_0000_0000,
    ensures
        r@ == sign_challenge_bytes_of(public_key@, blind_point@, msg@),
        r@.len() == 32,
{
    let mut transcript = merlin::Transcript::new(b"ct_sign");
    transcript.append_message(b"public_key", point_bytes(public_key));
    transcript.append_message(b"blind_point", point_bytes(blind_point));
    transcript.append_message(b"msg", msg.as_slice());
    let mut buf = [0u8; 32];
    transcript.challenge_bytes(b"", &mut buf);
    buf.to_vec()
}

/// The one-time-signature challenge scalar for a public key, a blinding
/// point and a message.
pub(crate) fn sign_challenge(public_key: &Point, blind_point: &Point, msg: &Vec<u8>) -> (r: Scalar)
    requires
        msg@.len() < 0x1_0000_0000,
    ensures
        r@ == sign_challenge_of(public_key@, blind_point@, msg@),
{
    let bytes = sign_challenge_bytes(public_key, blind_point, msg);
    scalar_from_bytes_mod_order(&bytes)
}

/// Relies on merlin::Transcript (new, append_message, challenge_bytes):
/// the challenge bytes are a function of the appended messages alone.
#[verifier::external_body]
fn sum_challenge_bytes(ca: &Point, cb: &Point, c: &Point) -> (r: Vec<u8>)
    ensures
        r@ == sum_challenge_bytes_of(ca@, cb@, c@),
        r@.len() == 32,
{
    let mut transcript = merlin::Transcript::new(b"sum_proof");
    transcript.append_message(b"", point_bytes(ca));
    transcript.append_message(b"", point_bytes(cb));
    transcript.append_message(b"", point_bytes(c));
    let mut buf = [0u8; 32];
    transcript.challenge_bytes(b"", &mut buf);
    buf.to_vec()
}

/// The sum-proof challenge scalar for two output commitments and an input
/// commitment.
pub(crate) fn sum_challenge(ca: &Point, cb: &Point, c: &Point) -> (r: Scalar)
    ensures
        r@ == sum_challenge_of(ca@, cb@, c@),
{
    let bytes = sum_challenge_bytes(ca, cb, c);
    scalar_from_bytes_mod_order(&bytes)
}

/// Relies on merlin::Transcript (new, append_message, challenge_bytes):
/// the challenge bytes are a function of the message and the two commitment
/// terms of every key, appended in key order under the labels "L" and "R".
/// merlin rejects a message of 2^32 bytes or more, so the message length
/// is bounded.
#[verifier::external_body]
fn mlsag_challenge_bytes(msg: &[u8], ls: &Vec<Point>, rs: &Vec<Point>) -> (r: Vec<u8>)
    requires
        ls@.len() == rs@.len(),
        msg@.len() < 0x1_0000_0000,
    ensures
        r@ == mlsag_challenge_bytes_of(msg@, point_views(ls@), point_views(rs@)),
        r@.len() == 32,
{
    let mut transcript = merlin::Transcript::new(b"mlsag");
    transcript.append_message(b"msg", msg);
    for i in 0..ls.len() {
        transcript.append_message(b"L", point_bytes(&ls[i]));
        transcript.append_message(b"R", point_bytes(&rs[i]));
    }
    let mut buf = [0u8; 32];
    transcript.challenge_bytes(b"", &mut buf);
    buf.to_vec()
}

/// The challenge scalar of one MLSAG ring position, from the message and
/// the position's commitment terms.
pub(crate) fn mlsag_challenge(msg: &[u8], ls: &Vec<Point>, rs: &Vec<Point>) -> (r: Scalar)
    requires
        ls@.len() == rs@.len(),
        msg@.len() < 0x1_0000_0000,
    ensures
        r@ == mlsag_challenge_of(msg@, point_views(ls@), point_views(rs@)),
{
    let bytes = mlsag_challenge_bytes(msg, ls, rs);
    scalar_from_bytes_mod_order(&bytes)
}

} // verus!
