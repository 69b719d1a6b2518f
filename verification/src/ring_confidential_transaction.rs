//! RingCT composition: multiple real inputs, decoy input sets and outputs
//! folded into one ring-signed transaction, with balance conservation
//! carried by a synthetic key pair appended to every ring position.

use vstd::prelude::*;
use crate::account::{recovered_key_enc, Account, KeyPair, OneTimeAccount, BlindPair};
use crate::confidential_transaction::{
    ct_bytes, ct_model, output_fields, shared_key_enc, ConfidentialTransaction,
};
use crate::error::Error;
use crate::group::{
    basepoint_g2, g2_enc, identity_enc, identity_point, padd, padd_of, point_views, psub, psub_of,
    sadd_of, scalar_add, scalar_sub, smul, smul_of, ssub_of, Point, Scalar,
};
use crate::material::{key_image_enc, key_images_enc, min2, pubkeys_enc, Material};
use crate::mlsag::{mlsag_signed, point_views2, scalar_views2, verify_chain, Mlsag, Signarute};
use crate::prove::{rp_valid, NonnegativeProof};
use crate::token::{
    commit_enc, decryptable, decrypted_balance, decrypted_blind, EncryptoTokenSecret, Token,
    TokenSecret,
};

verus! {

/// The one-time key that the owning account recovers from one input.
pub open spec fn input_key_enc(sk: Seq<u8>, ct: ConfidentialTransaction) -> Seq<u8> {
    recovered_key_enc(sk, ct.blind_point@)
}

/// The symmetric key that opens one input's encrypted secret.
pub open spec fn input_skey_enc(sk: Seq<u8>, ct: ConfidentialTransaction) -> Seq<u8> {
    shared_key_enc(input_key_enc(sk, ct), ct.blind_point@)
}

/// Whether stealth recovery succeeds on one input for the private key sk.
pub open spec fn input_recover_ok(sk: Seq<u8>, ct: ConfidentialTransaction) -> bool {
    smul_of(input_key_enc(sk, ct), g2_enc()) == ct.one_time_account@
}

/// Whether one input's encrypted secret decrypts under the re-derived key.
pub open spec fn input_dec_ok(sk: Seq<u8>, ct: ConfidentialTransaction) -> bool {
    decryptable(
        ct.encrypto_token_secret.balance_crypto@,
        ct.encrypto_token_secret.blind_crypto@,
        input_skey_enc(sk, ct),
    )
}

/// The balance that one input decrypts to.
pub open spec fn input_balance(sk: Seq<u8>, ct: ConfidentialTransaction) -> u64 {
    decrypted_balance(ct.encrypto_token_secret.balance_crypto@, input_skey_enc(sk, ct))
}

/// The blinding scalar that one input decrypts to.
pub open spec fn input_blind(sk: Seq<u8>, ct: ConfidentialTransaction) -> Seq<u8> {
    decrypted_blind(ct.encrypto_token_secret.blind_crypto@, input_skey_enc(sk, ct))
}

/// Whether every input recovers and decrypts for the private key sk.
pub open spec fn inputs_ok(sk: Seq<u8>, inputs: Seq<ConfidentialTransaction>) -> bool {
    forall|i: int|
        0 <= i < inputs.len() ==> input_recover_ok(sk, #[trigger] inputs[i]) && input_dec_ok(
            sk,
            inputs[i],
        )
}

/// The exact sum of the inputs' decrypted balances.
pub open spec fn sum_in(sk: Seq<u8>, inputs: Seq<ConfidentialTransaction>) -> int
    decreases inputs.len(),
{
    if inputs.len() == 0 {
        0
    } else {
        sum_in(sk, inputs.drop_last()) + input_balance(sk, inputs.last())
    }
}

/// The exact sum of the intended output amounts.
pub open spec fn sum_out(outs: Seq<(Account, u64)>) -> int
    decreases outs.len(),
{
    if outs.len() == 0 {
        0
    } else {
        sum_out(outs.drop_last()) + outs.last().1
    }
}

/// Whether every decoy set contributes as many inputs as the real spend.
pub open spec fn shape_ok(decoys: Seq<Seq<ConfidentialTransaction>>, n: nat) -> bool {
    forall|i: int| 0 <= i < decoys.len() ==> (#[trigger] decoys[i]).len() == n
}

/// The scalar sum of a sequence of scalar encodings, folded left from
/// zero.
pub open spec fn sum_sc_enc(s: Seq<Seq<u8>>) -> Seq<u8>
    decreases s.len(),
{
    if s.len() == 0 {
        identity_enc()
    } else {
        sadd_of(sum_sc_enc(s.drop_last()), s.last())
    }
}

/// The point sum of a sequence of point encodings, folded left from the
/// identity.
pub open spec fn sum_pt_enc(s: Seq<Seq<u8>>) -> Seq<u8>
    decreases s.len(),
{
    if s.len() == 0 {
        identity_enc()
    } else {
        padd_of(sum_pt_enc(s.drop_last()), s.last())
    }
}

/// The commitment encodings of a list of outputs.
pub open spec fn tokens_enc(cts: Seq<ConfidentialTransaction>) -> Seq<Seq<u8>> {
    cts.map_values(|ct: ConfidentialTransaction| ct.token@)
}

/// The one-time-account encodings of a list of outputs.
pub open spec fn otas_enc(cts: Seq<ConfidentialTransaction>) -> Seq<Seq<u8>> {
    cts.map_values(|ct: ConfidentialTransaction| ct.one_time_account@)
}

/// The published fields of every output in a list.
pub open spec fn cts_model(cts: Seq<ConfidentialTransaction>) -> Seq<
    (Seq<u8>, Seq<u8>, Seq<u8>, Seq<u8>, Seq<u8>, Seq<u8>),
> {
    cts.map_values(|ct: ConfidentialTransaction| ct_model(ct))
}

/// The concatenated serialized bytes of a list of outputs: the ring
/// signature's message.
pub open spec fn cts_bytes(cts: Seq<ConfidentialTransaction>) -> Seq<u8>
    decreases cts.len(),
{
    if cts.len() == 0 {
        Seq::empty()
    } else {
        cts_bytes(cts.drop_last()) + ct_bytes(cts.last())
    }
}

/// The views of a list of decoy sets.
pub open spec fn decoys_views(decoys: Seq<Vec<ConfidentialTransaction>>) -> Seq<
    Seq<ConfidentialTransaction>,
> {
    decoys.map_values(|v: Vec<ConfidentialTransaction>| v@)
}

/// A ring-spend request: the owning account, its real inputs, the intended
/// recipients with their amounts, and one decoy input set per other ring
/// position.
pub struct RingCT {
    pub ownership_account: Account,
    pub input_tx: Vec<ConfidentialTransaction>,
    pub output_account: Vec<(Account, u64)>,
    pub decoys: Vec<Vec<ConfidentialTransaction>>,
}

/// A completed ring-spend: the ring signature, the produced outputs, and
/// the input sets in ring order, the genuine spend last.
pub struct RingSignature {
    sig: Signarute,
    outputs: Vec<ConfidentialTransaction>,
    inputs: Vec<Vec<ConfidentialTransaction>>,
}

impl RingSignature {
    /// The ring signature itself.
    pub closed spec fn spec_sig(&self) -> Signarute {
        self.sig
    }

    /// The produced outputs.
    pub closed spec fn spec_outputs(&self) -> Seq<ConfidentialTransaction> {
        self.outputs@
    }

    /// The input sets, one per ring position.
    pub closed spec fn spec_inputs(&self) -> Seq<Seq<ConfidentialTransaction>> {
        decoys_views(self.inputs@)
    }

    /// The produced outputs, for the ledger and the recipients.
    pub fn get_outputs(&self) -> (r: &Vec<ConfidentialTransaction>)
        ensures
            r@ == self.spec_outputs(),
    {
        &self.outputs
    }

    /// The signature's key images, one per spending key plus one for the
    /// synthetic conservation key: the handle an outside ledger uses to
    /// detect a reused spending key across signatures.
    pub fn get_key_images(&self) -> (r: &Vec<Point>)
        ensures
            r@ == self.spec_sig().key_images@,
    {
        &self.sig.key_images
    }
}

/// A prefix of the inputs never sums to more than all of them: balances
/// are non-negative.
proof fn lemma_sum_in_prefix(sk: Seq<u8>, inputs: Seq<ConfidentialTransaction>, k: int)
    requires
        0 <= k <= inputs.len(),
    ensures
        sum_in(sk, inputs.take(k)) <= sum_in(sk, inputs),
        sum_in(sk, inputs) >= 0,
    decreases inputs.len(),
{
    if inputs.len() == 0 {
        assert(inputs.take(k) =~= inputs);
    } else if k == inputs.len() {
        assert(inputs.take(k) =~= inputs);
        lemma_sum_in_prefix(sk, inputs.drop_last(), inputs.len() - 1);
    } else {
        assert(inputs.take(k) =~= inputs.drop_last().take(k));
        lemma_sum_in_prefix(sk, inputs.drop_last(), k);
    }
}

/// A prefix of the output amounts never sums to more than all of them.
proof fn lemma_sum_out_prefix(outs: Seq<(Account, u64)>, k: int)
    requires
        0 <= k <= outs.len(),
    ensures
        sum_out(outs.take(k)) <= sum_out(outs),
        sum_out(outs) >= 0,
    decreases outs.len(),
{
    if outs.len() == 0 {
        assert(outs.take(k) =~= outs);
    } else if k == outs.len() {
        assert(outs.take(k) =~= outs);
        lemma_sum_out_prefix(outs.drop_last(), outs.len() - 1);
    } else {
        assert(outs.take(k) =~= outs.drop_last().take(k));
        lemma_sum_out_prefix(outs.drop_last(), k);
    }
}

impl RingCT {
    /// Recovers the one-time key of every real input and decrypts its
    /// secret; the first input that fails aborts the spend.
    fn decrypt_input_token_secrt(&self) -> (r: Result<Vec<TokenSecret>, Error>)
        ensures
            ({
                let sk = self.ownership_account.0.private_key@;
                &&& (r is Ok <==> inputs_ok(sk, self.input_tx@))
                &&& (r matches Ok(v) ==> {
                    &&& v@.len() == self.input_tx@.len()
                    &&& forall|i: int|
                        0 <= i < v@.len() ==> (#[trigger] v@[i]).balance == input_balance(
                            sk,
                            self.input_tx@[i],
                        ) && v@[i].blind@ == input_blind(sk, self.input_tx@[i])
                })
                &&& (r is Err ==> r == Result::<Vec<TokenSecret>, Error>::Err(Error::NotRecipient)
                    || r == Result::<Vec<TokenSecret>, Error>::Err(Error::DecryptError))
            }),
    {
        let ghost sk = self.ownership_account.0.private_key@;
        let mut secrets: Vec<TokenSecret> = Vec::new();
        let mut i: usize = 0;
        while i < self.input_tx.len()
            invariant
                i <= self.input_tx@.len(),
                sk == self.ownership_account.0.private_key@,
                secrets@.len() == i,
                forall|j: int|
                    0 <= j < i ==> input_recover_ok(sk, #[trigger] self.input_tx@[j])
                        && input_dec_ok(sk, self.input_tx@[j]),
                forall|j: int|
                    0 <= j < i ==> (#[trigger] secrets@[j]).balance == input_balance(
                        sk,
                        self.input_tx@[j],
                    ) && secrets@[j].blind@ == input_blind(sk, self.input_tx@[j]),
            decreases self.input_tx@.len() - i,
        {
            let ct = &self.input_tx[i];
            let key = match ct.one_time_account.get_private_key(
                &self.ownership_account,
                ct.blind_point,
            ) {
                Ok(k) => k,
                Err(_) => {
                    return Err(Error::NotRecipient);
                },
            };
            let secret = match ct.decrypt_token_secrt(key) {
                Ok(s) => s,
                Err(_) => {
                    return Err(Error::DecryptError);
                },
            };
            secrets.push(secret);
            i = i + 1;
        }
        Ok(secrets)
    }

    /// The sum of the decrypted input balances; fails if it leaves 64 bits.
    fn sum_input_balances(secrets: &Vec<TokenSecret>, Ghost(sk): Ghost<Seq<u8>>, Ghost(inputs): Ghost<Seq<ConfidentialTransaction>>) -> (r: Result<u64, Error>)
        requires
            secrets@.len() == inputs.len(),
            forall|i: int|
                0 <= i < inputs.len() ==> (#[trigger] secrets@[i]).balance == input_balance(
                    sk,
                    inputs[i],
                ),
        ensures
            r is Ok <==> sum_in(sk, inputs) <= u64::MAX,
            r matches Ok(v) ==> v == sum_in(sk, inputs),
            r is Err ==> r == Result::<u64, Error>::Err(Error::AmountOverflow),
    {
        let mut acc: u64 = 0;
        let mut i: usize = 0;
        while i < secrets.len()
            invariant
                i <= secrets@.len(),
                secrets@.len() == inputs.len(),
                forall|j: int|
                    0 <= j < inputs.len() ==> (#[trigger] secrets@[j]).balance == input_balance(
                        sk,
                        inputs[j],
                    ),
                acc == sum_in(sk, inputs.take(i as int)),
            decreases secrets@.len() - i,
        {
            let b = secrets[i].balance;
            proof {
                assert(inputs.take(i as int + 1).drop_last() =~= inputs.take(i as int));
                assert(inputs.take(i as int + 1).last() == inputs[i as int]);
            }
            if b > u64::MAX - acc {
                proof {
                    lemma_sum_in_prefix(sk, inputs, i as int + 1);
                }
                return Err(Error::AmountOverflow);
            }
            acc = acc + b;
            i = i + 1;
        }
        proof {
            assert(inputs.take(inputs.len() as int) =~= inputs);
        }
        Ok(acc)
    }

    /// The sum of the intended output amounts; fails if it leaves 64 bits.
    fn sum_output_amounts(outs: &Vec<(Account, u64)>) -> (r: Result<u64, Error>)
        ensures
            r is Ok <==> sum_out(outs@) <= u64::MAX,
            r matches Ok(v) ==> v == sum_out(outs@),
            r is Err ==> r == Result::<u64, Error>::Err(Error::AmountOverflow),
    {
        let mut acc: u64 = 0;
        let mut i: usize = 0;
        while i < outs.len()
            invariant
                i <= outs@.len(),
                acc == sum_out(outs@.take(i as int)),
            decreases outs@.len() - i,
        {
            let b = outs[i].1;
            proof {
                assert(outs@.take(i as int + 1).drop_last() =~= outs@.take(i as int));
                assert(outs@.take(i as int + 1).last() == outs@[i as int]);
            }
            if b > u64::MAX - acc {
                proof {
                    lemma_sum_out_prefix(outs@, i as int + 1);
                }
                return Err(Error::AmountOverflow);
            }
            acc = acc + b;
            i = i + 1;
        }
        proof {
            assert(outs@.take(outs@.len() as int) =~= outs@);
        }
        Ok(acc)
    }
}

/// The blinding scalars of a list of token secrets.
pub open spec fn blinds_of(s: Seq<TokenSecret>) -> Seq<Seq<u8>> {
    s.map_values(|ts: TokenSecret| ts.blind@)
}

/// The blinding scalars of a list of minted (token, secret) pairs.
pub open spec fn pair_blinds(b: Seq<(Token, TokenSecret)>) -> Seq<Seq<u8>> {
    b.map_values(|p: (Token, TokenSecret)| p.1.blind@)
}

/// The commitment encodings of a list of minted (token, secret) pairs.
pub open spec fn pair_tokens_enc(b: Seq<(Token, TokenSecret)>) -> Seq<Seq<u8>> {
    b.map_values(|p: (Token, TokenSecret)| p.0@)
}

/// The synthetic blinding-difference scalar of a ring spend: the sum of
/// the decrypted input blindings minus the sum of the output blindings.
pub open spec fn z_enc(
    sk: Seq<u8>,
    inputs: Seq<ConfidentialTransaction>,
    out_blinds: Seq<Seq<u8>>,
) -> Seq<u8> {
    ssub_of(
        sum_sc_enc(Seq::new(inputs.len(), |i: int| input_blind(sk, inputs[i]))),
        sum_sc_enc(out_blinds),
    )
}

/// What a completed ring spend holds, for the ring materials m, ephemeral
/// scalars and output blindings chosen during signing: the outputs are
/// fresh outputs for the requested recipients and amounts; the input sets
/// are the decoy sets followed by the real inputs; every ring position's
/// public-key vector is its one-time accounts plus the synthetic
/// conservation key, the real position's synthetic key being z·G2 for the
/// blinding difference z; the key images are those of the recovered
/// spending keys and of z; and the stored signature is the MLSAG engine's
/// signature, by exactly those materials, of the outputs' serialized
/// bytes — so its challenge and response rows are bound to the outputs.
pub open spec fn ring_transfer_witness(
    rs: RingSignature,
    sk: Seq<u8>,
    inputs: Seq<ConfidentialTransaction>,
    outs: Seq<(Account, u64)>,
    decoys: Seq<Seq<ConfidentialTransaction>>,
    m: Mlsag,
    ephs: Seq<Seq<u8>>,
    blinds: Seq<Seq<u8>>,
) -> bool {
    let n_out = outs.len();
    let n_in = inputs.len();
    let n_ring = decoys.len();
    let z = z_enc(sk, inputs, blinds);
    let out_token_sum = sum_pt_enc(tokens_enc(rs.spec_outputs()));
    &&& ephs.len() == n_out
    &&& blinds.len() == n_out
    &&& rs.spec_outputs().len() == n_out
    &&& (forall|i: int|
        0 <= i < n_out ==> output_fields(
            #[trigger] rs.spec_outputs()[i],
            outs[i].0.0.public_key@,
            outs[i].1,
            ephs[i],
            blinds[i],
        ))
    &&& rs.spec_inputs().len() == n_ring + 1
    &&& (forall|i: int|
        0 <= i < n_ring ==> cts_model(#[trigger] rs.spec_inputs()[i]) == cts_model(decoys[i]))
    &&& cts_model(rs.spec_inputs()[n_ring as int]) == cts_model(inputs)
    &&& rs.spec_sig().public_keys@.len() == n_ring + 1
    &&& (forall|i: int|
        0 <= i < n_ring ==> point_views(#[trigger] rs.spec_sig().public_keys@[i]@) == otas_enc(
            decoys[i],
        ).push(psub_of(sum_pt_enc(tokens_enc(decoys[i])), out_token_sum)))
    &&& point_views(rs.spec_sig().public_keys@[n_ring as int]@) == otas_enc(inputs).push(
        smul_of(z, g2_enc()),
    )
    &&& point_views(rs.spec_sig().key_images@) == Seq::new(
        n_in + 1,
        |i: int|
            if i < n_in {
                key_image_enc(input_key_enc(sk, inputs[i]), inputs[i].one_time_account@)
            } else {
                key_image_enc(z, smul_of(z, g2_enc()))
            },
    )
    &&& mlsag_signed(rs.spec_sig(), m, cts_bytes(rs.spec_outputs()))
    &&& m.decoys@.len() == n_ring
    &&& (forall|i: int|
        0 <= i < n_ring ==> pubkeys_enc(#[trigger] m.decoys@[i].key_pairs@) == otas_enc(
            decoys[i],
        ).push(psub_of(sum_pt_enc(tokens_enc(decoys[i])), out_token_sum)))
    &&& m.signer.key_pairs@.len() == n_in + 1
    &&& (forall|i: int|
        0 <= i < n_in ==> (#[trigger] m.signer.key_pairs@[i]).public_key@ == inputs[i].one_time_account@
            && m.signer.key_pairs@[i].private_key@ == input_key_enc(sk, inputs[i]))
    &&& m.signer.key_pairs@[n_in as int].private_key@ == z
    &&& m.signer.key_pairs@[n_in as int].public_key@ == smul_of(z, g2_enc())
}

impl RingCT {
    /// One stealth derivation per intended recipient.
    fn generate_one_time_account(&self) -> (r: Vec<(OneTimeAccount, BlindPair, Vec<u8>)>)
        ensures
            r@.len() == self.output_account@.len(),
            forall|i: int|
                0 <= i < r@.len() ==> {
                    let pk = self.output_account@[i].0.0.public_key@;
                    &&& (#[trigger] r@[i]).0@ == crate::account::derived_account_enc(
                        r@[i].1.0.private_key@,
                        pk,
                    )
                    &&& r@[i].1.0.public_key@ == smul_of(r@[i].1.0.private_key@, g2_enc())
                    &&& r@[i].2@ == crate::account::derived_key_enc(r@[i].1.0.private_key@, pk)
                    &&& r@[i].2@.len() == 32
                },
    {
        let mut out: Vec<(OneTimeAccount, BlindPair, Vec<u8>)> = Vec::new();
        let mut i: usize = 0;
        while i < self.output_account.len()
            invariant
                i <= self.output_account@.len(),
                out@.len() == i,
                forall|j: int|
                    0 <= j < i ==> {
                        let pk = self.output_account@[j].0.0.public_key@;
                        &&& (#[trigger] out@[j]).0@ == crate::account::derived_account_enc(
                            out@[j].1.0.private_key@,
                            pk,
                        )
                        &&& out@[j].1.0.public_key@ == smul_of(out@[j].1.0.private_key@, g2_enc())
                        &&& out@[j].2@ == crate::account::derived_key_enc(
                            out@[j].1.0.private_key@,
                            pk,
                        )
                        &&& out@[j].2@.len() == 32
                    },
            decreases self.output_account@.len() - i,
        {
            out.push(self.output_account[i].0.gen_one_time_account());
            i = i + 1;
        }
        out
    }

    /// One fresh commitment per intended amount.
    fn token_mint(&self) -> (r: Vec<(Token, TokenSecret)>)
        ensures
            r@.len() == self.output_account@.len(),
            forall|i: int|
                0 <= i < r@.len() ==> {
                    &&& (#[trigger] r@[i]).0@ == commit_enc(
                        self.output_account@[i].1,
                        r@[i].1.blind@,
                    )
                    &&& r@[i].1.balance == self.output_account@[i].1
                    &&& r@[i].1.blind@.len() == 32
                    &&& r@[i].1.blind@[31] < 0x80
                },
    {
        let mut out: Vec<(Token, TokenSecret)> = Vec::new();
        let mut i: usize = 0;
        while i < self.output_account.len()
            invariant
                i <= self.output_account@.len(),
                out@.len() == i,
                forall|j: int|
                    0 <= j < i ==> {
                        &&& (#[trigger] out@[j]).0@ == commit_enc(
                            self.output_account@[j].1,
                            out@[j].1.blind@,
                        )
                        &&& out@[j].1.balance == self.output_account@[j].1
                        &&& out@[j].1.blind@.len() == 32
                        &&& out@[j].1.blind@[31] < 0x80
                    },
            decreases self.output_account@.len() - i,
        {
            out.push(Token::mint(self.output_account[i].1));
            i = i + 1;
        }
        out
    }

    /// Encrypts each output's secret under its derivation's symmetric key.
    fn encry_token_secret(
        a: &Vec<(OneTimeAccount, BlindPair, Vec<u8>)>,
        b: &Vec<(Token, TokenSecret)>,
    ) -> (r: Result<Vec<EncryptoTokenSecret>, Error>)
        requires
            a@.len() == b@.len(),
            forall|i: int| 0 <= i < a@.len() ==> (#[trigger] a@[i]).2@.len() == 32,
        ensures
            r is Ok,
            r matches Ok(v) ==> {
                &&& v@.len() == a@.len()
                &&& forall|i: int|
                    0 <= i < v@.len() ==> {
                        let key = a@[i].2@;
                        &&& (#[trigger] v@[i]).balance_crypto@ == crate::aes::cipher_of(
                            vstd::bytes::spec_u64_to_le_bytes(b@[i].1.balance),
                            key,
                        )
                        &&& v@[i].blind_crypto@ == crate::aes::cipher_of(b@[i].1.blind@, key)
                        &&& crate::aes::plain_of(v@[i].balance_crypto@, key) == Some(
                            vstd::bytes::spec_u64_to_le_bytes(b@[i].1.balance),
                        )
                        &&& crate::aes::plain_of(v@[i].blind_crypto@, key) == Some(b@[i].1.blind@)
                    }
            },
    {
        let mut out: Vec<EncryptoTokenSecret> = Vec::new();
        let mut i: usize = 0;
        while i < a.len()
            invariant
                i <= a@.len(),
                a@.len() == b@.len(),
                forall|j: int| 0 <= j < a@.len() ==> (#[trigger] a@[j]).2@.len() == 32,
                out@.len() == i,
                forall|j: int|
                    0 <= j < i ==> {
                        let key = a@[j].2@;
                        &&& (#[trigger] out@[j]).balance_crypto@ == crate::aes::cipher_of(
                            vstd::bytes::spec_u64_to_le_bytes(b@[j].1.balance),
                            key,
                        )
                        &&& out@[j].blind_crypto@ == crate::aes::cipher_of(b@[j].1.blind@, key)
                        &&& crate::aes::plain_of(out@[j].balance_crypto@, key) == Some(
                            vstd::bytes::spec_u64_to_le_bytes(b@[j].1.balance),
                        )
                        &&& crate::aes::plain_of(out@[j].blind_crypto@, key) == Some(
                            b@[j].1.blind@,
                        )
                    },
            decreases a@.len() - i,
        {
            let enc = match b[i].1.encrypt(&a[i].2) {
                Ok(v) => v,
                Err(e) => {
                    return Err(e);
                },
            };
            out.push(enc);
            i = i + 1;
        }
        Ok(out)
    }

    /// One nonnegative proof per output commitment.
    fn generate_nonnegative_proof(b: &Vec<(Token, TokenSecret)>) -> (r: Vec<NonnegativeProof>)
        ensures
            r@.len() == b@.len(),
            forall|i: int|
                0 <= i < r@.len() ==> (b@[i].1.balance < 0x1_0000_0000 ==> rp_valid(
                    (#[trigger] r@[i]).spec_proof(),
                    commit_enc(b@[i].1.balance, b@[i].1.blind@),
                )),
    {
        let mut out: Vec<NonnegativeProof> = Vec::new();
        let mut i: usize = 0;
        while i < b.len()
            invariant
                i <= b@.len(),
                out@.len() == i,
                forall|j: int|
                    0 <= j < i ==> (b@[j].1.balance < 0x1_0000_0000 ==> rp_valid(
                        (#[trigger] out@[j]).spec_proof(),
                        commit_enc(b@[j].1.balance, b@[j].1.blind@),
                    )),
            decreases b@.len() - i,
        {
            out.push(NonnegativeProof::new(&b[i].1));
            i = i + 1;
        }
        out
    }

    /// Assembles the outputs from the derivations, commitments, encrypted
    /// secrets and proofs, in order.
    fn get_output_cts(
        output_one_time_account: &Vec<(OneTimeAccount, BlindPair, Vec<u8>)>,
        output_token: &Vec<(Token, TokenSecret)>,
        encry_token_secrets: &Vec<EncryptoTokenSecret>,
        nonnegative_proofs: &Vec<NonnegativeProof>,
    ) -> (r: Vec<ConfidentialTransaction>)
        requires
            output_one_time_account@.len() == output_token@.len(),
            output_token@.len() == encry_token_secrets@.len(),
            encry_token_secrets@.len() == nonnegative_proofs@.len(),
        ensures
            r@.len() == output_token@.len(),
            forall|i: int|
                0 <= i < r@.len() ==> {
                    &&& (#[trigger] r@[i]).one_time_account@ == output_one_time_account@[i].0@
                    &&& r@[i].blind_point@ == output_one_time_account@[i].1.0.public_key@
                    &&& r@[i].token@ == output_token@[i].0@
                    &&& r@[i].nonnegative_proof.spec_proof()
                        == nonnegative_proofs@[i].spec_proof()
                    &&& r@[i].encrypto_token_secret.balance_crypto@
                        == encry_token_secrets@[i].balance_crypto@
                    &&& r@[i].encrypto_token_secret.blind_crypto@
                        == encry_token_secrets@[i].blind_crypto@
                },
    {
        let mut out: Vec<ConfidentialTransaction> = Vec::new();
        let mut i: usize = 0;
        while i < output_token.len()
            invariant
                i <= output_token@.len(),
                output_one_time_account@.len() == output_token@.len(),
                output_token@.len() == encry_token_secrets@.len(),
                encry_token_secrets@.len() == nonnegative_proofs@.len(),
                out@.len() == i,
                forall|j: int|
                    0 <= j < i ==> {
                        &&& (#[trigger] out@[j]).one_time_account@
                            == output_one_time_account@[j].0@
                        &&& out@[j].blind_point@ == output_one_time_account@[j].1.0.public_key@
                        &&& out@[j].token@ == output_token@[j].0@
                        &&& out@[j].nonnegative_proof.spec_proof()
                            == nonnegative_proofs@[j].spec_proof()
                        &&& out@[j].encrypto_token_secret.balance_crypto@
                            == encry_token_secrets@[j].balance_crypto@
                        &&& out@[j].encrypto_token_secret.blind_crypto@
                            == encry_token_secrets@[j].blind_crypto@
                    },
            decreases output_token@.len() - i,
        {
            let ct = ConfidentialTransaction {
                one_time_account: output_one_time_account[i].0,
                blind_point: output_one_time_account[i].1.get_blind_point(),
                token: output_token[i].0,
                nonnegative_proof: nonnegative_proofs[i].clone(),
                encrypto_token_secret: encry_token_secrets[i].clone(),
            };
            out.push(ct);
            i = i + 1;
        }
        out
    }

    /// The signer position's key pairs: the recovered one-time key of each
    /// real input under its one-time account, plus the synthetic pair
    /// (z, z·G2) for the blinding difference z.
    fn compute_signer_keypairs(
        &self,
        input_token_secrt: &Vec<TokenSecret>,
        output_token: &Vec<(Token, TokenSecret)>,
    ) -> (r: Result<Vec<KeyPair>, Error>)
        ensures
            ({
                let sk = self.ownership_account.0.private_key@;
                let n = self.input_tx@.len() as int;
                let z = ssub_of(
                    sum_sc_enc(blinds_of(input_token_secrt@)),
                    sum_sc_enc(pair_blinds(output_token@)),
                );
                &&& (r is Ok <==> forall|i: int|
                    0 <= i < n ==> input_recover_ok(sk, #[trigger] self.input_tx@[i]))
                &&& (r matches Ok(kps) ==> {
                    &&& kps@.len() == n + 1
                    &&& (forall|i: int|
                        0 <= i < n ==> (#[trigger] kps@[i]).public_key@
                            == self.input_tx@[i].one_time_account@ && kps@[i].private_key@
                            == input_key_enc(sk, self.input_tx@[i]))
                    &&& kps@[n].private_key@ == z
                    &&& kps@[n].public_key@ == smul_of(z, g2_enc())
                })
                &&& (r is Err ==> r == Result::<Vec<KeyPair>, Error>::Err(Error::NotRecipient))
            }),
    {
        let ghost sk = self.ownership_account.0.private_key@;
        let mut key_pairs: Vec<KeyPair> = Vec::new();
        let mut i: usize = 0;
        while i < self.input_tx.len()
            invariant
                i <= self.input_tx@.len(),
                sk == self.ownership_account.0.private_key@,
                key_pairs@.len() == i,
                forall|j: int|
                    0 <= j < i ==> input_recover_ok(sk, #[trigger] self.input_tx@[j]),
                forall|j: int|
                    0 <= j < i ==> (#[trigger] key_pairs@[j]).public_key@
                        == self.input_tx@[j].one_time_account@ && key_pairs@[j].private_key@
                        == input_key_enc(sk, self.input_tx@[j]),
            decreases self.input_tx@.len() - i,
        {
            let ct = &self.input_tx[i];
            let private_key = match ct.one_time_account.get_private_key(
                &self.ownership_account,
                ct.blind_point,
            ) {
                Ok(k) => k,
                Err(_) => {
                    return Err(Error::NotRecipient);
                },
            };
            key_pairs.push(KeyPair { private_key, public_key: ct.one_time_account.get_point() });
            i = i + 1;
        }

        let mut in_sum = Scalar::zero();
        let mut j: usize = 0;
        while j < input_token_secrt.len()
            invariant
                j <= input_token_secrt@.len(),
                in_sum@ == sum_sc_enc(blinds_of(input_token_secrt@).take(j as int)),
            decreases input_token_secrt@.len() - j,
        {
            proof {
                assert(blinds_of(input_token_secrt@).take(j as int + 1).drop_last() =~= blinds_of(
                    input_token_secrt@,
                ).take(j as int));
            }
            in_sum = scalar_add(&in_sum, &input_token_secrt[j].blind);
            j = j + 1;
        }
        let mut out_sum = Scalar::zero();
        let mut k: usize = 0;
        while k < output_token.len()
            invariant
                k <= output_token@.len(),
                out_sum@ == sum_sc_enc(pair_blinds(output_token@).take(k as int)),
            decreases output_token@.len() - k,
        {
            proof {
                assert(pair_blinds(output_token@).take(k as int + 1).drop_last() =~= pair_blinds(
                    output_token@,
                ).take(k as int));
            }
            out_sum = scalar_add(&out_sum, &output_token[k].1.blind);
            k = k + 1;
        }
        proof {
            assert(blinds_of(input_token_secrt@).take(input_token_secrt@.len() as int)
                =~= blinds_of(input_token_secrt@));
            assert(pair_blinds(output_token@).take(output_token@.len() as int) =~= pair_blinds(
                output_token@,
            ));
        }
        let z = scalar_sub(&in_sum, &out_sum);
        let z_point = smul(&z, &basepoint_g2());
        key_pairs.push(KeyPair { private_key: z, public_key: z_point });
        Ok(key_pairs)
    }

    /// One decoy position's key pairs: a zero private scalar under each of
    /// the decoy's one-time accounts, plus the synthetic public point
    /// (sum of the decoy's commitments - sum of the output commitments).
    fn compute_decoys_keypairs(
        decoy: &Vec<ConfidentialTransaction>,
        output_token: &Vec<(Token, TokenSecret)>,
    ) -> (r: Vec<KeyPair>)
        ensures
            r@.len() == decoy@.len() + 1,
            forall|i: int|
                0 <= i < decoy@.len() ==> (#[trigger] r@[i]).public_key@
                    == decoy@[i].one_time_account@ && r@[i].private_key@ == identity_enc(),
            r@.last().public_key@ == psub_of(
                sum_pt_enc(tokens_enc(decoy@)),
                sum_pt_enc(pair_tokens_enc(output_token@)),
            ),
            r@.last().private_key@ == identity_enc(),
    {
        let mut key_pairs: Vec<KeyPair> = Vec::new();
        let mut i: usize = 0;
        while i < decoy.len()
            invariant
                i <= decoy@.len(),
                key_pairs@.len() == i,
                forall|j: int|
                    0 <= j < i ==> (#[trigger] key_pairs@[j]).public_key@
                        == decoy@[j].one_time_account@ && key_pairs@[j].private_key@
                        == identity_enc(),
            decreases decoy@.len() - i,
        {
            key_pairs.push(KeyPair {
                private_key: Scalar::zero(),
                public_key: decoy[i].one_time_account.get_point(),
            });
            i = i + 1;
        }

        let decoy_sum = sum_token_points(decoy);
        let mut out_sum = identity_point();
        let mut k: usize = 0;
        while k < output_token.len()
            invariant
                k <= output_token@.len(),
                out_sum@ == sum_pt_enc(pair_tokens_enc(output_token@).take(k as int)),
            decreases output_token@.len() - k,
        {
            proof {
                assert(pair_tokens_enc(output_token@).take(k as int + 1).drop_last()
                    =~= pair_tokens_enc(output_token@).take(k as int));
            }
            let p = output_token[k].0.get_point();
            out_sum = padd(&out_sum, &p);
            k = k + 1;
        }
        proof {
            assert(pair_tokens_enc(output_token@).take(output_token@.len() as int)
                =~= pair_tokens_enc(output_token@));
        }
        key_pairs.push(KeyPair {
            public_key: psub(&decoy_sum, &out_sum),
            private_key: Scalar::zero(),
        });
        key_pairs
    }
}

/// Whether a completed ring spend is the honest result of a request: some
/// choice of ephemeral scalars and output blindings satisfies the
/// ring-transfer witness.
pub open spec fn ring_transfer_ok(
    rs: RingSignature,
    sk: Seq<u8>,
    inputs: Seq<ConfidentialTransaction>,
    outs: Seq<(Account, u64)>,
    decoys: Seq<Seq<ConfidentialTransaction>>,
) -> bool {
    exists|m: Mlsag, ephs: Seq<Seq<u8>>, blinds: Seq<Seq<u8>>|
        #[trigger] ring_transfer_witness(rs, sk, inputs, outs, decoys, m, ephs, blinds)
}

impl RingCT {
    /// Builds the ring-signed transfer: decrypts the real inputs, checks
    /// that their balances sum exactly to the intended output amounts and
    /// that every decoy set has the real spend's shape, builds the fresh
    /// outputs, and signs the outputs' serialized bytes with an MLSAG ring
    /// whose every position carries the synthetic conservation key.
    #[verifier::rlimit(100)]
    #[verifier::spinoff_prover]
    pub fn transfer(&self) -> (r: Result<RingSignature, Error>)
        requires
            96 * self.output_account@.len() < 0x1_0000_0000,
        ensures
            ({
                let sk = self.ownership_account.0.private_key@;
                let ins = self.input_tx@;
                let outs = self.output_account@;
                let dec = decoys_views(self.decoys@);
                let rec = inputs_ok(sk, ins);
                let fits = sum_in(sk, ins) <= u64::MAX && sum_out(outs) <= u64::MAX;
                let balanced = sum_in(sk, ins) == sum_out(outs);
                let shaped = shape_ok(dec, ins.len());
                &&& (r is Ok <==> rec && fits && balanced && shaped)
                &&& (!rec ==> r == Result::<RingSignature, Error>::Err(Error::NotRecipient) || r
                    == Result::<RingSignature, Error>::Err(Error::DecryptError))
                &&& (rec && !fits ==> r == Result::<RingSignature, Error>::Err(
                    Error::AmountOverflow,
                ))
                &&& (rec && fits && !(balanced && shaped) ==> r == Result::<
                    RingSignature,
                    Error,
                >::Err(Error::ShapeError))
                &&& (r matches Ok(rs) ==> ring_transfer_ok(rs, sk, ins, outs, dec))
            }),
    {
        let ghost sk = self.ownership_account.0.private_key@;
        let input_token_secrt = match self.decrypt_input_token_secrt() {
            Ok(v) => v,
            Err(e) => {
                return Err(e);
            },
        };
        let in_sum = match Self::sum_input_balances(
            &input_token_secrt,
            Ghost(sk),
            Ghost(self.input_tx@),
        ) {
            Ok(v) => v,
            Err(e) => {
                return Err(e);
            },
        };
        let out_amt = match Self::sum_output_amounts(&self.output_account) {
            Ok(v) => v,
            Err(e) => {
                return Err(e);
            },
        };
        if in_sum != out_amt {
            return Err(Error::ShapeError);
        }
        let mut d: usize = 0;
        while d < self.decoys.len()
            invariant
                d <= self.decoys@.len(),
                sk == self.ownership_account.0.private_key@,
                inputs_ok(sk, self.input_tx@),
                sum_in(sk, self.input_tx@) <= u64::MAX,
                sum_out(self.output_account@) <= u64::MAX,
                sum_in(sk, self.input_tx@) == sum_out(self.output_account@),
                forall|j: int|
                    0 <= j < d ==> (#[trigger] self.decoys@[j]@).len() == self.input_tx@.len(),
            decreases self.decoys@.len() - d,
        {
            if self.decoys[d].len() != self.input_tx.len() {
                proof {
                    assert(decoys_views(self.decoys@)[d as int] == self.decoys@[d as int]@);
                }
                return Err(Error::ShapeError);
            }
            d = d + 1;
        }
        proof {
            assert forall|j: int| 0 <= j < decoys_views(self.decoys@).len() implies (
            #[trigger] decoys_views(self.decoys@)[j]).len() == self.input_tx@.len() by {
                assert(decoys_views(self.decoys@)[j] == self.decoys@[j]@);
            }
        }

        let output_one_time_account = self.generate_one_time_account();
        let output_token = self.token_mint();
        let encry_token_secrets = match Self::encry_token_secret(
            &output_one_time_account,
            &output_token,
        ) {
            Ok(v) => v,
            Err(e) => {
                return Err(e);
            },
        };
        let nonnegative_proofs = Self::generate_nonnegative_proof(&output_token);
        let output_cts = Self::get_output_cts(
            &output_one_time_account,
            &output_token,
            &encry_token_secrets,
            &nonnegative_proofs,
        );
        let sign_msg = concat_ct_bytes(&output_cts);

        let signer_kps = match self.compute_signer_keypairs(&input_token_secrt, &output_token) {
            Ok(v) => v,
            Err(e) => {
                return Err(e);
            },
        };
        let ghost signer_kps_view = signer_kps@;
        let ghost out_tokens_sum = sum_pt_enc(pair_tokens_enc(output_token@));
        let mut mlasg = Mlsag { signer: Material::new_signer(signer_kps), decoys: Vec::new() };
        let mut d2: usize = 0;
        while d2 < self.decoys.len()
            invariant
                d2 <= self.decoys@.len(),
                mlasg.signer.key_pairs@ == signer_kps_view,
                mlasg.signer.alpha_vec@.len() == signer_kps_view.len(),
                mlasg.decoys@.len() == d2,
                out_tokens_sum == sum_pt_enc(pair_tokens_enc(output_token@)),
                forall|j: int|
                    0 <= j < d2 ==> pubkeys_enc(#[trigger] mlasg.decoys@[j].key_pairs@)
                        == otas_enc(self.decoys@[j]@).push(
                        psub_of(sum_pt_enc(tokens_enc(self.decoys@[j]@)), out_tokens_sum),
                    ),
            decreases self.decoys@.len() - d2,
        {
            let kps = Self::compute_decoys_keypairs(&self.decoys[d2], &output_token);
            proof {
                assert(pubkeys_enc(kps@) =~= otas_enc(self.decoys@[d2 as int]@).push(
                    psub_of(sum_pt_enc(tokens_enc(self.decoys@[d2 as int]@)), out_tokens_sum),
                ));
            }
            let ghost before = mlasg.decoys@;
            let ghost kps_view = kps@;
            mlasg.add_decopys(kps);
            proof {
                assert(mlasg.decoys@[d2 as int].key_pairs@ == kps_view);
                assert forall|j: int|
                    0 <= j < d2 + 1 implies pubkeys_enc(
                    #[trigger] mlasg.decoys@[j].key_pairs@,
                ) == otas_enc(self.decoys@[j]@).push(
                    psub_of(sum_pt_enc(tokens_enc(self.decoys@[j]@)), out_tokens_sum),
                ) by {
                    if j < d2 {
                        assert(mlasg.decoys@[j] == before[j]);
                        assert(pubkeys_enc(before[j].key_pairs@) == otas_enc(
                            self.decoys@[j]@,
                        ).push(psub_of(sum_pt_enc(tokens_enc(self.decoys@[j]@)), out_tokens_sum)));
                    }
                }
            }
            d2 = d2 + 1;
        }
        let signarute = mlasg.sign(sign_msg.as_slice());

        let mut inputs: Vec<Vec<ConfidentialTransaction>> = Vec::new();
        let mut d3: usize = 0;
        while d3 < self.decoys.len()
            invariant
                d3 <= self.decoys@.len(),
                inputs@.len() == d3,
                forall|j: int|
                    0 <= j < d3 ==> cts_model(#[trigger] inputs@[j]@) == cts_model(
                        self.decoys@[j]@,
                    ),
            decreases self.decoys@.len() - d3,
        {
            inputs.push(clone_cts(&self.decoys[d3]));
            d3 = d3 + 1;
        }
        inputs.push(clone_cts(&self.input_tx));

        let rs = RingSignature { sig: signarute, outputs: output_cts, inputs };
        proof {
            let n_out = self.output_account@.len() as int;
            let n_in = self.input_tx@.len() as int;
            let n_ring = self.decoys@.len() as int;
            let ephs = Seq::new(
                n_out as nat,
                |i: int| output_one_time_account@[i].1.0.private_key@,
            );
            let blinds = Seq::new(n_out as nat, |i: int| output_token@[i].1.blind@);
            let dec = decoys_views(self.decoys@);

            assert(ring_transfer_witness(
                rs,
                sk,
                self.input_tx@,
                self.output_account@,
                dec,
                mlasg,
                ephs,
                blinds,
            )) by {
                assert(blinds_of(input_token_secrt@) =~= Seq::new(
                    n_in as nat,
                    |i: int| input_blind(sk, self.input_tx@[i]),
                ));
                assert(pair_blinds(output_token@) =~= blinds);
                let z = z_enc(sk, self.input_tx@, blinds);

                assert forall|i: int| 0 <= i < n_out implies output_fields(
                    rs.spec_outputs()[i],
                    self.output_account@[i].0.0.public_key@,
                    self.output_account@[i].1,
                    ephs[i],
                    blinds[i],
                ) by {
                    assert(rs.spec_outputs()[i] == output_cts@[i]);
                    assert(output_cts@[i].token@ == output_token@[i].0@);
                }

                assert(rs.spec_inputs().len() == n_ring + 1);
                assert(cts_model(rs.spec_inputs()[n_ring]) == cts_model(self.input_tx@));
                assert(forall|i: int|
                    0 <= i < n_ring ==> cts_model(#[trigger] rs.spec_inputs()[i]) == cts_model(
                        dec[i],
                    ));

                assert(pubkeys_enc(signer_kps_view) =~= otas_enc(self.input_tx@).push(
                    smul_of(z, g2_enc()),
                ));
                assert(point_views(rs.spec_sig().public_keys@[n_ring]@) == otas_enc(
                    self.input_tx@,
                ).push(smul_of(z, g2_enc())));
                assert forall|i: int| 0 <= i < n_ring implies point_views(
                    #[trigger] rs.spec_sig().public_keys@[i]@,
                ) == otas_enc(dec[i]).push(
                    psub_of(
                        sum_pt_enc(tokens_enc(dec[i])),
                        sum_pt_enc(tokens_enc(rs.spec_outputs())),
                    ),
                ) by {
                    assert(pubkeys_enc(mlasg.decoys@[i].key_pairs@) == otas_enc(
                        self.decoys@[i]@,
                    ).push(psub_of(sum_pt_enc(tokens_enc(self.decoys@[i]@)), out_tokens_sum)));
                    assert(tokens_enc(rs.spec_outputs()) =~= pair_tokens_enc(output_token@));
                }

                assert(key_images_enc(signer_kps_view) =~= Seq::new(
                    (n_in + 1) as nat,
                    |i: int|
                        if i < n_in {
                            key_image_enc(
                                input_key_enc(sk, self.input_tx@[i]),
                                self.input_tx@[i].one_time_account@,
                            )
                        } else {
                            key_image_enc(z, smul_of(z, g2_enc()))
                        },
                ));

                assert(tokens_enc(rs.spec_outputs()) =~= pair_tokens_enc(output_token@));
                assert(sum_pt_enc(tokens_enc(rs.spec_outputs())) == out_tokens_sum);

                assert(cts_bytes(rs.spec_outputs()) == sign_msg@);
                assert(mlsag_signed(rs.spec_sig(), mlasg, cts_bytes(rs.spec_outputs())));
                assert(mlasg.signer.key_pairs@ == signer_kps_view);
                assert forall|i: int| 0 <= i < n_in implies (
                #[trigger] mlasg.signer.key_pairs@[i]).public_key@
                    == self.input_tx@[i].one_time_account@ && mlasg.signer.key_pairs@[i].private_key@
                    == input_key_enc(sk, self.input_tx@[i]) by {
                    assert(mlasg.signer.key_pairs@[i] == signer_kps_view[i]);
                }
                assert(mlasg.signer.key_pairs@[n_in] == signer_kps_view[n_in]);
            }
            assert(ring_transfer_ok(
                rs,
                sk,
                self.input_tx@,
                self.output_account@,
                decoys_views(self.decoys@),
            ));
            assert(inputs_ok(sk, self.input_tx@));
            assert(sum_in(sk, self.input_tx@) == sum_out(self.output_account@));
            assert(sum_in(sk, self.input_tx@) <= u64::MAX);
            assert(shape_ok(decoys_views(self.decoys@), self.input_tx@.len()));
        }
        Ok(rs)
    }
}

impl RingSignature {
    /// Verifies the ring spend: the ring signature's cyclic closure over
    /// the serialized outputs, each output's nonnegative proof, and, per
    /// ring position, that the position's input commitments sum to the
    /// output commitments plus its synthetic conservation key. The first
    /// failing stage short-circuits to false.
    pub fn verify(&self) -> (r: bool)
        requires
            96 * self.spec_outputs().len() < 0x1_0000_0000,
        ensures
            ({
                let msg = cts_bytes(self.spec_outputs());
                let sig0 = self.spec_sig();
                let chain_ok = verify_chain(
                    point_views2(sig0.public_keys@),
                    scalar_views2(sig0.s@),
                    point_views(sig0.key_images@),
                    msg,
                    sig0.c@,
                ) == sig0.c@;
                let out_sum = sum_pt_enc(tokens_enc(self.spec_outputs()));
                let m = min2(self.spec_inputs().len(), sig0.public_keys@.len());
                let sums_ok = forall|i: int|
                    0 <= i < m ==> (#[trigger] sig0.public_keys@[i]@).len() >= 1 && sum_pt_enc(
                        tokens_enc(self.spec_inputs()[i]),
                    ) == padd_of(out_sum, sig0.public_keys@[i]@.last()@);
                let ranges_ok = forall|i: int|
                    0 <= i < self.spec_outputs().len() ==> rp_valid(
                        (#[trigger] self.spec_outputs()[i]).nonnegative_proof.spec_proof(),
                        self.spec_outputs()[i].token@,
                    );
                &&& (r ==> chain_ok && sums_ok)
                &&& (chain_ok && sums_ok && ranges_ok ==> r)
            }),
    {
        let sign_msg = concat_ct_bytes(&self.outputs);
        if !self.sig.verify(sign_msg.as_slice()) {
            return false;
        }

        let mut i: usize = 0;
        while i < self.outputs.len()
            invariant
                i <= self.outputs@.len(),
            decreases self.outputs@.len() - i,
        {
            if !self.outputs[i].nonnegative_proof.verify(&self.outputs[i].token) {
                return false;
            }
            i = i + 1;
        }

        let out_sum = self.compute_output_token_sum();
        let count = if self.inputs.len() <= self.sig.public_keys.len() {
            self.inputs.len()
        } else {
            self.sig.public_keys.len()
        };
        let mut k: usize = 0;
        while k < count
            invariant
                k <= count,
                count == min2(self.spec_inputs().len(), self.spec_sig().public_keys@.len()),
                out_sum@ == sum_pt_enc(tokens_enc(self.spec_outputs())),
                forall|j: int|
                    0 <= j < k ==> (#[trigger] self.spec_sig().public_keys@[j]@).len() >= 1
                        && sum_pt_enc(tokens_enc(self.spec_inputs()[j])) == padd_of(
                        sum_pt_enc(tokens_enc(self.spec_outputs())),
                        self.spec_sig().public_keys@[j]@.last()@,
                    ),
            decreases count - k,
        {
            let pk_vec = &self.sig.public_keys[k];
            if pk_vec.len() == 0 {
                return false;
            }
            let input_sum = sum_token_points(&self.inputs[k]);
            let expect = padd(&out_sum, &pk_vec[pk_vec.len() - 1]);
            if input_sum != expect {
                return false;
            }
            k = k + 1;
        }
        true
    }

    /// The sum of the outputs' commitment points.
    fn compute_output_token_sum(&self) -> (r: Point)
        ensures
            r@ == sum_pt_enc(tokens_enc(self.spec_outputs())),
    {
        sum_token_points(&self.outputs)
    }
}

/// The concatenated serialized bytes of the outputs, in order: the ring
/// signature's message.
fn concat_ct_bytes(cts: &Vec<ConfidentialTransaction>) -> (r: Vec<u8>)
    ensures
        r@ == cts_bytes(cts@),
        r@.len() == 96 * cts@.len(),
{
    let mut acc: Vec<u8> = Vec::new();
    let mut i: usize = 0;
    while i < cts.len()
        invariant
            i <= cts@.len(),
            acc@ == cts_bytes(cts@.take(i as int)),
            acc@.len() == 96 * i,
        decreases cts@.len() - i,
    {
        proof {
            assert(cts@.take(i as int + 1).drop_last() =~= cts@.take(i as int));
        }
        let mut piece = cts[i].to_bytes();
        proof {
            assert(piece@ == ct_bytes(cts@[i as int]));
        }
        acc.append(&mut piece);
        i = i + 1;
    }
    proof {
        assert(cts@.take(cts@.len() as int) =~= cts@);
    }
    acc
}

/// A deep copy of a list of outputs, preserving every published field.
fn clone_cts(v: &Vec<ConfidentialTransaction>) -> (r: Vec<ConfidentialTransaction>)
    ensures
        r@.len() == v@.len(),
        cts_model(r@) == cts_model(v@),
{
    let mut out: Vec<ConfidentialTransaction> = Vec::new();
    let mut i: usize = 0;
    while i < v.len()
        invariant
            i <= v@.len(),
            out@.len() == i,
            forall|j: int| 0 <= j < i ==> ct_model(#[trigger] out@[j]) == ct_model(v@[j]),
        decreases v@.len() - i,
    {
        out.push(v[i].clone());
        i = i + 1;
    }
    proof {
        assert(cts_model(out@) =~= cts_model(v@));
    }
    out
}

/// The sum of a list of outputs' commitment points, folded left from the
/// identity.
fn sum_token_points(cts: &Vec<ConfidentialTransaction>) -> (r: Point)
    ensures
        r@ == sum_pt_enc(tokens_enc(cts@)),
{
    let mut acc = identity_point();
    let mut i: usize = 0;
    while i < cts.len()
        invariant
            i <= cts@.len(),
            acc@ == sum_pt_enc(tokens_enc(cts@).take(i as int)),
        decreases cts@.len() - i,
    {
        proof {
            assert(tokens_enc(cts@).take(i as int + 1).drop_last() =~= tokens_enc(cts@).take(
                i as int,
            ));
        }
        let p = cts[i].token.get_point();
        acc = padd(&acc, &p);
        i = i + 1;
    }
    proof {
        assert(tokens_enc(cts@).take(cts@.len() as int) =~= tokens_enc(cts@));
    }
    acc
}

} // verus!
