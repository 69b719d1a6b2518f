//! The one-time signature: a Schnorr variant with an explicit random
//! blinding per signature.

use vstd::prelude::*;
use crate::group::{
    basepoint_g2, g2_enc, get_random_scalar, padd, padd_of, scalar_mul, scalar_sub, smul, smul_of,
    smul_sc_of, ssub_of, Point, Scalar,
};
use crate::transcript::{sign_challenge, sign_challenge_of};

verus! {

/// A one-time signature: the blinding point b·G2 and the response
/// b - h·private_key for the transcript challenge h.
pub struct SignMsg {
    blind_point: Point,
    private_key_blind: Scalar,
}

impl SignMsg {
    /// The encoding of the signature's blinding point.
    pub closed spec fn spec_blind_point(&self) -> Seq<u8> {
        self.blind_point@
    }

    /// The encoding of the signature's response scalar.
    pub closed spec fn spec_response(&self) -> Seq<u8> {
        self.private_key_blind@
    }
}

/// Whether a (blinding point, response) pair passes verification for a
/// public key and message: h·P + response·G2 equals the blinding point,
/// for the challenge h of the signing transcript.
pub open spec fn sign_accepts(pk: Seq<u8>, blind_point: Seq<u8>, response: Seq<u8>, msg: Seq<u8>) -> bool {
    padd_of(
        smul_of(sign_challenge_of(pk, blind_point, msg), pk),
        smul_of(response, g2_enc()),
    ) == blind_point
}

/// Whether a signature is an honest signature of a message under the
/// private key k: for some blinding scalar b, the blinding point is b·G2
/// and the response is b - h·k for the challenge h that binds k's public
/// point, the blinding point and the message.
pub open spec fn signed_with(s: SignMsg, k: Seq<u8>, msg: Seq<u8>) -> bool {
    exists|b: Seq<u8>|
        {
            &&& s.spec_blind_point() == #[trigger] smul_of(b, g2_enc())
            &&& s.spec_response() == ssub_of(
                b,
                smul_sc_of(
                    sign_challenge_of(smul_of(k, g2_enc()), s.spec_blind_point(), msg),
                    k,
                ),
            )
        }
}

/// Signs a message with a private key: samples a fresh blinding scalar b,
/// publishes b·G2, and responds with b - h·private_key for the challenge h
/// that binds the public key, the blinding point and the message.
pub fn sign(private_key: Scalar, msg: &mut Vec<u8>) -> (r: SignMsg)
    requires
        old(msg)@.len() < 0x1_0000_0000,
    ensures
        final(msg)@ == old(msg)@,
        signed_with(r, private_key@, old(msg)@),
{
    let public_key = smul(&private_key, &basepoint_g2());
    let blind = get_random_scalar();
    let blind_point = smul(&blind, &basepoint_g2());
    let h = sign_challenge(&public_key, &blind_point, msg);
    let private_key_blind = scalar_sub(&blind, &scalar_mul(&h, &private_key));
    let r = SignMsg { blind_point, private_key_blind };
    proof {
        assert(r.spec_blind_point() == smul_of(blind@, g2_enc()));
    }
    r
}

/// Verifies a one-time signature: recomputes the challenge h from the
/// public key, the signature's blinding point and the message, and accepts
/// exactly when h·public_key + response·G2 equals the blinding point.
pub fn verify(public_key: Point, sign: &SignMsg, msg: &mut Vec<u8>) -> (r: bool)
    requires
        old(msg)@.len() < 0x1_0000_0000,
    ensures
        final(msg)@ == old(msg)@,
        r == sign_accepts(public_key@, sign.spec_blind_point(), sign.spec_response(), old(msg)@),
{
    let h = sign_challenge(&public_key, &sign.blind_point, msg);
    let expect_blind_point = padd(
        &smul(&h, &public_key),
        &smul(&sign.private_key_blind, &basepoint_g2()),
    );
    expect_blind_point == sign.blind_point
}

} // verus!
