//! The sum proof (a sigma protocol over Pedersen commitments) and the
//! nonnegative proof (an adapter around the outside range-proof backend).

use vstd::prelude::*;
use crate::error::Error;
use crate::group::{
    basepoint_g1, basepoint_g2, g1_enc, g2_enc, get_random_scalar, padd, padd_of, scalar_add,
    scalar_from_u64, scalar_mul, scalar_of_u64, scalar_sub, sadd_of, smul, smul_of, smul_sc_of,
    ssub_of, Point, Scalar,
};
use crate::token::{commit_enc, Token, TokenSecret};
use crate::transcript::{sum_challenge, sum_challenge_of};

verus! {

/// A sum-proof transcript: five response scalars proving that the input
/// commitment's balance equals the sum of the two output balances.
pub struct SumProof {
    theta_a: Scalar,
    theta_b: Scalar,
    theta_1: Scalar,
    theta_2: Scalar,
    theta_3: Scalar,
}

impl SumProof {
    /// The encodings of the five response scalars, in field order.
    pub closed spec fn spec_thetas(&self) -> (Seq<u8>, Seq<u8>, Seq<u8>, Seq<u8>, Seq<u8>) {
        (self.theta_a@, self.theta_b@, self.theta_1@, self.theta_2@, self.theta_3@)
    }
}

/// Whether five response scalars pass sum-proof verification against the
/// commitments c1, c2 (outputs) and c3 (input): with the challenge x bound
/// to the three commitments,
/// (θa+θb)·G1 + θ3·G2 + x·c3 must equal
/// (θa·G1 + θ1·G2 + x·c1) + (θb·G1 + θ2·G2 + x·c2).
pub open spec fn sum_accepts(
    thetas: (Seq<u8>, Seq<u8>, Seq<u8>, Seq<u8>, Seq<u8>),
    c1: Seq<u8>,
    c2: Seq<u8>,
    c3: Seq<u8>,
) -> bool {
    let x = sum_challenge_of(c1, c2, c3);
    padd_of(
        padd_of(smul_of(sadd_of(thetas.0, thetas.1), g1_enc()), smul_of(thetas.4, g2_enc())),
        smul_of(x, c3),
    ) == padd_of(
        padd_of(padd_of(smul_of(thetas.0, g1_enc()), smul_of(thetas.2, g2_enc())), smul_of(x, c1)),
        padd_of(padd_of(smul_of(thetas.1, g1_enc()), smul_of(thetas.3, g2_enc())), smul_of(x, c2)),
    )
}

/// The five response scalars of an honest sum proof for balances v1, v2
/// with blindings b1, b2, b3, commitment challenge x and prover randomness
/// (alpha, beta, r1, r2).
pub open spec fn sum_responses(
    v1: u64,
    v2: u64,
    b1: Seq<u8>,
    b2: Seq<u8>,
    b3: Seq<u8>,
    x: Seq<u8>,
    alpha: Seq<u8>,
    beta: Seq<u8>,
    r1: Seq<u8>,
    r2: Seq<u8>,
) -> (Seq<u8>, Seq<u8>, Seq<u8>, Seq<u8>, Seq<u8>) {
    (
        ssub_of(alpha, smul_sc_of(scalar_of_u64(v1), x)),
        ssub_of(beta, smul_sc_of(scalar_of_u64(v2), x)),
        ssub_of(r1, smul_sc_of(b1, x)),
        ssub_of(r2, smul_sc_of(b2, x)),
        ssub_of(sadd_of(r1, r2), smul_sc_of(b3, x)),
    )
}

/// Whether a sum proof is an honest proof for output balances v1, v2 with
/// blindings b1, b2 and input blinding b3: for some prover randomness its
/// five responses are exactly the sigma-protocol responses under the
/// challenge bound to the three commitments.
pub open spec fn sum_proved_with(
    p: SumProof,
    v1: u64,
    v2: u64,
    b1: Seq<u8>,
    b2: Seq<u8>,
    b3: Seq<u8>,
) -> bool {
    exists|alpha: Seq<u8>, beta: Seq<u8>, r1: Seq<u8>, r2: Seq<u8>|
        p.spec_thetas() == #[trigger] sum_responses(
            v1,
            v2,
            b1,
            b2,
            b3,
            sum_challenge_of(
                commit_enc(v1, b1),
                commit_enc(v2, b2),
                commit_enc((v1 + v2) as u64, b3),
            ),
            alpha,
            beta,
            r1,
            r2,
        )
}

impl SumProof {
    /// Builds a sum proof from the input's opening and the two outputs'
    /// openings.
    pub fn new_sum_proof(
        input: &TokenSecret,
        output1: &TokenSecret,
        output2: &TokenSecret,
    ) -> (r: SumProof)
        requires
            output1.balance + output2.balance <= u64::MAX,
        ensures
            sum_proved_with(
                r,
                output1.balance,
                output2.balance,
                output1.blind@,
                output2.blind@,
                input.blind@,
            ),
    {
        Self::prove_sum_relationship(
            output1.balance,
            output2.balance,
            &output1.blind,
            &output2.blind,
            &input.blind,
        )
    }

    /// The prover side of the sigma protocol: commits to fresh randomness,
    /// derives the Fiat–Shamir challenge from the three commitments, and
    /// answers with the five response scalars.
    fn prove_sum_relationship(
        c1_value: u64,
        c2_value: u64,
        c1_blinding: &Scalar,
        c2_blinding: &Scalar,
        c3_blinding: &Scalar,
    ) -> (r: SumProof)
        requires
            c1_value + c2_value <= u64::MAX,
        ensures
            sum_proved_with(r, c1_value, c2_value, c1_blinding@, c2_blinding@, c3_blinding@),
    {
        let alpha = get_random_scalar();
        let beta = get_random_scalar();
        let r1 = get_random_scalar();
        let r2 = get_random_scalar();

        let g1 = basepoint_g1();
        let g2 = basepoint_g2();
        let ca = padd(&smul(&scalar_from_u64(c1_value), &g1), &smul(c1_blinding, &g2));
        let cb = padd(&smul(&scalar_from_u64(c2_value), &g1), &smul(c2_blinding, &g2));
        let c = padd(&smul(&scalar_from_u64(c1_value + c2_value), &g1), &smul(c3_blinding, &g2));

        let x = sum_challenge(&ca, &cb, &c);

        let theta_a = scalar_sub(&alpha, &scalar_mul(&scalar_from_u64(c1_value), &x));
        let theta_b = scalar_sub(&beta, &scalar_mul(&scalar_from_u64(c2_value), &x));
        let theta_1 = scalar_sub(&r1, &scalar_mul(c1_blinding, &x));
        let theta_2 = scalar_sub(&r2, &scalar_mul(c2_blinding, &x));
        let theta_3 = scalar_sub(&scalar_add(&r1, &r2), &scalar_mul(c3_blinding, &x));

        let result = SumProof { theta_a, theta_b, theta_1, theta_2, theta_3 };
        proof {
            assert(result.spec_thetas() == sum_responses(
                c1_value,
                c2_value,
                c1_blinding@,
                c2_blinding@,
                c3_blinding@,
                sum_challenge_of(
                    commit_enc(c1_value, c1_blinding@),
                    commit_enc(c2_value, c2_blinding@),
                    commit_enc((c1_value + c2_value) as u64, c3_blinding@),
                ),
                alpha@,
                beta@,
                r1@,
                r2@,
            ));
        }
        result
    }

    /// Verifies the proof against the input commitment and the two output
    /// commitments; returns exactly whether the verification equation
    /// holds.
    pub fn verify_sum_proof(&self, input: &Token, output1: &Token, output2: &Token) -> (r: Result<
        bool,
        Error,
    >)
        ensures
            r matches Ok(b) && b == sum_accepts(self.spec_thetas(), output1@, output2@, input@),
    {
        let p1 = output1.get_point();
        let p2 = output2.get_point();
        let p3 = input.get_point();
        self.verify_sum_relationship(&p1, &p2, &p3)
    }

    /// The verifier side: recomputes the challenge from the commitments and
    /// checks the linear combination equation of `sum_accepts`.
    fn verify_sum_relationship(
        &self,
        c1_point: &Point,
        c2_point: &Point,
        c3_point: &Point,
    ) -> (r: Result<bool, Error>)
        ensures
            r matches Ok(b) && b == sum_accepts(self.spec_thetas(), c1_point@, c2_point@, c3_point@),
    {
        let x = sum_challenge(c1_point, c2_point, c3_point);
        let g1 = basepoint_g1();
        let g2 = basepoint_g2();

        let left = padd(
            &padd(
                &smul(&scalar_add(&self.theta_a, &self.theta_b), &g1),
                &smul(&self.theta_3, &g2),
            ),
            &smul(&x, c3_point),
        );
        let d1 = padd(
            &padd(&smul(&self.theta_a, &g1), &smul(&self.theta_1, &g2)),
            &smul(&x, c1_point),
        );
        let d2 = padd(
            &padd(&smul(&self.theta_b, &g1), &smul(&self.theta_2, &g2)),
            &smul(&x, c2_point),
        );
        let right = padd(&d1, &d2);

        Ok(left == right)
    }
}

/// Whether proof bytes verify against a commitment under the fixed
/// range-proof parameters (default Pedersen generators, generator capacity
/// 64, one party, transcript domain "nonnegative proof", bit width 32).
/// Proofs with this property are accepted on every verifier run.
pub uninterp spec fn rp_valid(proof: Seq<u8>, commitment: Seq<u8>) -> bool;

/// A nonnegative proof: the serialized form of an outside range proof,
/// verified against a Token's commitment.
pub struct NonnegativeProof {
    proof: Vec<u8>,
}

impl NonnegativeProof {
    /// The serialized proof bytes.
    pub closed spec fn spec_proof(&self) -> Seq<u8> {
        self.proof@
    }
}

impl Clone for NonnegativeProof {
    fn clone(&self) -> (r: Self)
        ensures
            r.spec_proof() == self.spec_proof(),
    {
        NonnegativeProof { proof: self.proof.clone() }
    }
}

/// Relies on bulletproofs::RangeProof::prove_single and to_bytes, with
/// PedersenGens::default (whose generators are G1 and G2), one-party
/// BulletproofGens of capacity 64, a fresh "nonnegative proof" transcript
/// and bit width 32: proving never fails for these parameters, and for a
/// value below 2^32 the serialized proof verifies against the commitment
/// value·G1 + blind·G2.
#[verifier::external_body]
fn range_prove(value: u64, blind: &Scalar) -> (r: Vec<u8>)
    ensures
        value < 0x1_0000_0000 ==> rp_valid(r@, commit_enc(value, blind@)),
{
    let pc_gens = bulletproofs::PedersenGens::default();
    let bp_gens = bulletproofs::BulletproofGens::new(64, 1);
    let mut transcript = merlin::Transcript::new(b"nonnegative proof");
    let blinding =
        curve25519_dalek_ng::scalar::Scalar::from_bits(*crate::group::scalar_bytes(blind));
    let (proof, _) = bulletproofs::RangeProof::prove_single(
        &bp_gens, &pc_gens, &mut transcript, value, &blinding, 32,
    ).expect("generate nonnegative proof error");
    proof.to_bytes()
}

/// Relies on bulletproofs::RangeProof::from_bytes and verify_single with
/// the same fixed parameters as proving: proof bytes with the `rp_valid`
/// property are accepted; anything else may be rejected.
#[verifier::external_body]
fn range_verify(proof: &Vec<u8>, commitment: &Point) -> (r: bool)
    ensures
        rp_valid(proof@, commitment@) ==> r,
{
    let pc_gens = bulletproofs::PedersenGens::default();
    let bp_gens = bulletproofs::BulletproofGens::new(64, 1);
    let mut transcript = merlin::Transcript::new(b"nonnegative proof");
    let v =
        curve25519_dalek_ng::ristretto::CompressedRistretto(*crate::group::point_bytes(commitment));
    match bulletproofs::RangeProof::from_bytes(proof.as_slice()) {
        Ok(p) => p.verify_single(&bp_gens, &pc_gens, &mut transcript, &v, 32).is_ok(),
        Err(_) => false,
    }
}

impl NonnegativeProof {
    /// Proves that a committed balance lies in the 32-bit nonnegative
    /// range, through the outside range-proof backend.
    pub fn new(secret: &TokenSecret) -> (r: NonnegativeProof)
        ensures
            secret.balance < 0x1_0000_0000 ==> rp_valid(
                r.spec_proof(),
                commit_enc(secret.balance, secret.blind@),
            ),
    {
        NonnegativeProof { proof: range_prove(secret.balance, &secret.blind) }
    }

    /// Verifies the proof against a token's commitment: a proof built for
    /// this commitment is accepted; on any other input a rejection is the
    /// expected outcome.
    pub fn verify(&self, token: &Token) -> (r: bool)
        ensures
            rp_valid(self.spec_proof(), token@) ==> r,
    {
        let point = token.get_point();
        range_verify(&self.proof, &point)
    }
}

} // verus!
