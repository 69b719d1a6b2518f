//! Confidential outputs and the single-spend transfer: one input consumed,
//! two outputs produced, signed with the recovered one-time key.

use vstd::prelude::*;
use crate::account::{
    derived_account_enc, derived_key_enc, recovered_key_enc, Account, OneTimeAccount,
};
use crate::aes::{cipher_of, plain_of};
use crate::error::Error;
use crate::group::{g2_enc, point_to_bytes, smul, smul_of, Point, Scalar};
use crate::hash::{sha256_of, Hasher};
use crate::prove::{rp_valid, sum_accepts, sum_proved_with, NonnegativeProof, SumProof};
use crate::signature::{sign, sign_accepts, signed_with, verify, SignMsg};
use crate::token::{
    commit_enc, decryptable, decrypted_balance, decrypted_blind, EncryptoTokenSecret, Token,
    TokenSecret,
};

verus! {

/// A spendable confidential output: the stealth one-time account, the
/// published blinding point, the balance commitment, its nonnegative proof
/// and the encrypted opening.
pub struct ConfidentialTransaction {
    pub one_time_account: OneTimeAccount,
    pub blind_point: Point,
    pub token: Token,
    pub nonnegative_proof: NonnegativeProof,
    pub encrypto_token_secret: EncryptoTokenSecret,
}

/// The published fields of an output, as byte sequences: one-time account,
/// blinding point, commitment, proof bytes, encrypted balance and encrypted
/// blinding.
pub open spec fn ct_model(ct: ConfidentialTransaction) -> (
    Seq<u8>,
    Seq<u8>,
    Seq<u8>,
    Seq<u8>,
    Seq<u8>,
    Seq<u8>,
) {
    (
        ct.one_time_account@,
        ct.blind_point@,
        ct.token@,
        ct.nonnegative_proof.spec_proof(),
        ct.encrypto_token_secret.balance_crypto@,
        ct.encrypto_token_secret.blind_crypto@,
    )
}

/// An output's serialized form: one-time account ‖ blinding point ‖
/// commitment, each in its canonical 32-byte encoding. This exact layout is
/// what gets hashed and signed.
pub open spec fn ct_bytes(ct: ConfidentialTransaction) -> Seq<u8> {
    ct.one_time_account@ + ct.blind_point@ + ct.token@
}

/// The ECDH symmetric key that the holder of one-time key k re-derives
/// from a published blinding point.
pub open spec fn shared_key_enc(k: Seq<u8>, bp: Seq<u8>) -> Seq<u8> {
    sha256_of(smul_of(k, bp))
}

/// The fields of a freshly built output for recipient public key pk and
/// balance v, with ephemeral scalar eph and commitment blinding blind.
pub open spec fn output_fields(
    ct: ConfidentialTransaction,
    pk: Seq<u8>,
    v: u64,
    eph: Seq<u8>,
    blind: Seq<u8>,
) -> bool {
    let key = derived_key_enc(eph, pk);
    &&& ct.one_time_account@ == derived_account_enc(eph, pk)
    &&& ct.blind_point@ == smul_of(eph, g2_enc())
    &&& ct.token@ == commit_enc(v, blind)
    &&& blind.len() == 32
    &&& blind[31] < 0x80
    &&& (v < 0x1_0000_0000 ==> rp_valid(ct.nonnegative_proof.spec_proof(), ct.token@))
    &&& ct.encrypto_token_secret.balance_crypto@ == cipher_of(
        vstd::bytes::spec_u64_to_le_bytes(v),
        key,
    )
    &&& ct.encrypto_token_secret.blind_crypto@ == cipher_of(blind, key)
    &&& plain_of(ct.encrypto_token_secret.balance_crypto@, key) == Some(
        vstd::bytes::spec_u64_to_le_bytes(v),
    )
    &&& plain_of(ct.encrypto_token_secret.blind_crypto@, key) == Some(blind)
}

impl Clone for ConfidentialTransaction {
    fn clone(&self) -> (r: Self)
        ensures
            ct_model(r) == ct_model(*self),
    {
        ConfidentialTransaction {
            one_time_account: self.one_time_account,
            blind_point: self.blind_point,
            token: self.token,
            nonnegative_proof: self.nonnegative_proof.clone(),
            encrypto_token_secret: self.encrypto_token_secret.clone(),
        }
    }
}

impl ConfidentialTransaction {
    /// Serializes the output as one-time account ‖ blinding point ‖
    /// commitment.
    pub fn to_bytes(&self) -> (r: Vec<u8>)
        ensures
            r@ == ct_bytes(*self),
            r@.len() == 96,
    {
        let mut bytes1 = point_to_bytes(&self.one_time_account.get_point());
        let mut bytes2 = point_to_bytes(&self.blind_point);
        let mut bytes3 = point_to_bytes(&self.token.get_point());
        bytes1.append(&mut bytes2);
        bytes1.append(&mut bytes3);
        bytes1
    }

    /// Re-derives the ECDH symmetric key from the one-time private key and
    /// the published blinding point, and decrypts the token secret.
    pub fn decrypt_token_secrt(&self, key: Scalar) -> (r: Result<TokenSecret, Error>)
        ensures
            ({
                let skey = shared_key_enc(key@, self.blind_point@);
                let e_bal = self.encrypto_token_secret.balance_crypto@;
                let e_blind = self.encrypto_token_secret.blind_crypto@;
                &&& (r is Ok <==> decryptable(e_bal, e_blind, skey))
                &&& (r matches Ok(ts) ==> ts.balance == decrypted_balance(e_bal, skey)
                    && ts.blind@ == decrypted_blind(e_blind, skey))
                &&& (r is Err ==> r == Result::<TokenSecret, Error>::Err(Error::DecryptError))
            }),
    {
        let shared = smul(&key, &self.blind_point);
        let shared_bytes = point_to_bytes(&shared);
        let symmetric_key = Hasher::sha_256(shared_bytes.as_slice());
        self.encrypto_token_secret.decrypt(&symmetric_key)
    }

    /// Spends this output: recovers the one-time key, decrypts the balance,
    /// rejects a transfer beyond the remaining balance, mints one output
    /// back to the sender and one to the recipient, signs both outputs'
    /// serialized bytes with the recovered key, and attaches a sum proof
    /// over (input, output1, output2).
    pub fn transfer(&self, from: &Account, to: &Account, amount: u64) -> (r: Result<
        SignTx,
        Error,
    >)
        ensures
            ({
                let k = recovered_key_enc(from.0.private_key@, self.blind_point@);
                let skey = shared_key_enc(k, self.blind_point@);
                let e_bal = self.encrypto_token_secret.balance_crypto@;
                let e_blind = self.encrypto_token_secret.blind_crypto@;
                let rec_ok = smul_of(k, g2_enc()) == self.one_time_account@;
                let dec_ok = decryptable(e_bal, e_blind, skey);
                let bal = decrypted_balance(e_bal, skey);
                &&& (r is Ok <==> rec_ok && dec_ok && amount <= bal)
                &&& (!rec_ok ==> r == Result::<SignTx, Error>::Err(Error::NotRecipient))
                &&& (rec_ok && !dec_ok ==> r == Result::<SignTx, Error>::Err(Error::DecryptError))
                &&& (rec_ok && dec_ok && amount > bal ==> r == Result::<SignTx, Error>::Err(
                    Error::InsufficientBalance,
                ))
                &&& (r matches Ok(tx) ==> {
                    let remaining = (bal - amount) as u64;
                    &&& ct_model(tx.input) == ct_model(*self)
                    &&& tx.outputs@.len() == 2
                    &&& exists|eph0: Seq<u8>, blind0: Seq<u8>, eph1: Seq<u8>, blind1: Seq<u8>|
                        {
                            &&& #[trigger] output_fields(
                                tx.outputs@[0],
                                from.0.public_key@,
                                remaining,
                                eph0,
                                blind0,
                            )
                            &&& #[trigger] output_fields(
                                tx.outputs@[1],
                                to.0.public_key@,
                                amount,
                                eph1,
                                blind1,
                            )
                            &&& sum_proved_with(
                                tx.sum_proof,
                                remaining,
                                amount,
                                blind0,
                                blind1,
                                decrypted_blind(e_blind, skey),
                            )
                        }
                    &&& signed_with(
                        tx.sign_msg,
                        k,
                        ct_bytes(tx.outputs@[0]) + ct_bytes(tx.outputs@[1]),
                    )
                })
            }),
    {
        let key = match self.one_time_account.get_private_key(from, self.blind_point) {
            Ok(k) => k,
            Err(e) => {
                return Err(e);
            },
        };
        let input_token_secrt = match self.decrypt_token_secrt(key) {
            Ok(v) => v,
            Err(e) => {
                return Err(e);
            },
        };
        if amount > input_token_secrt.balance {
            return Err(Error::InsufficientBalance);
        }

        let (output1_one_time_account, output1_blind_pair, output1_symmetric_key) =
            from.gen_one_time_account();
        let (output2_one_time_account, output2_blind_pair, output2_symmetric_key) =
            to.gen_one_time_account();

        let remaining = input_token_secrt.balance - amount;
        let (output1_token, output1_token_secret) = Token::mint(remaining);
        let (output2_token, output2_token_secret) = Token::mint(amount);

        let output1_crypt_secret = match output1_token_secret.encrypt(&output1_symmetric_key) {
            Ok(v) => v,
            Err(e) => {
                return Err(e);
            },
        };
        let output2_crypt_secret = match output2_token_secret.encrypt(&output2_symmetric_key) {
            Ok(v) => v,
            Err(e) => {
                return Err(e);
            },
        };

        let output1_onnegative_proof = NonnegativeProof::new(&output1_token_secret);
        let output2_onnegative_proof = NonnegativeProof::new(&output2_token_secret);

        let output1_ct = ConfidentialTransaction {
            one_time_account: output1_one_time_account,
            blind_point: output1_blind_pair.get_blind_point(),
            token: output1_token,
            nonnegative_proof: output1_onnegative_proof,
            encrypto_token_secret: output1_crypt_secret,
        };
        let output2_ct = ConfidentialTransaction {
            one_time_account: output2_one_time_account,
            blind_point: output2_blind_pair.get_blind_point(),
            token: output2_token,
            nonnegative_proof: output2_onnegative_proof,
            encrypto_token_secret: output2_crypt_secret,
        };

        let mut outputs_bytes = output1_ct.to_bytes();
        let mut tail_bytes = output2_ct.to_bytes();
        outputs_bytes.append(&mut tail_bytes);
        let sign_msg = sign(key, &mut outputs_bytes);

        let sum_proof = SumProof::new_sum_proof(
            &input_token_secrt,
            &output1_token_secret,
            &output2_token_secret,
        );

        let mut outputs: Vec<ConfidentialTransaction> = Vec::new();
        outputs.push(output1_ct);
        outputs.push(output2_ct);

        let sign_tx = SignTx { input: self.clone(), outputs, sign_msg, sum_proof };
        proof {
            use_type_invariant(&output1_token_secret.blind);
            use_type_invariant(&output2_token_secret.blind);
            assert(output_fields(
                sign_tx.outputs@[0],
                from.0.public_key@,
                remaining,
                output1_blind_pair.0.private_key@,
                output1_token_secret.blind@,
            ));
            assert(output_fields(
                sign_tx.outputs@[1],
                to.0.public_key@,
                amount,
                output2_blind_pair.0.private_key@,
                output2_token_secret.blind@,
            ));
        }
        Ok(sign_tx)
    }
}

/// One completed single-spend transfer awaiting verification: the consumed
/// input, the two produced outputs, the one-time signature over their
/// serialized bytes, and the sum proof.
pub struct SignTx {
    pub input: ConfidentialTransaction,
    pub outputs: Vec<ConfidentialTransaction>,
    pub sign_msg: SignMsg,
    pub sum_proof: SumProof,
}

impl SignTx {
    /// Verifies the transfer: the one-time signature over the serialized
    /// outputs against the input's one-time key, each output's nonnegative
    /// proof against its own commitment, and the sum proof against the
    /// three commitments. The first failing stage short-circuits to false.
    pub fn verify(&self) -> (r: Result<bool, Error>)
        requires
            self.outputs@.len() == 2,
        ensures
            ({
                let m = ct_bytes(self.outputs@[0]) + ct_bytes(self.outputs@[1]);
                let sig_ok = sign_accepts(
                    self.input.one_time_account@,
                    self.sign_msg.spec_blind_point(),
                    self.sign_msg.spec_response(),
                    m,
                );
                let sum_ok = sum_accepts(
                    self.sum_proof.spec_thetas(),
                    self.outputs@[0].token@,
                    self.outputs@[1].token@,
                    self.input.token@,
                );
                &&& r is Ok
                &&& (r matches Ok(b) && b ==> sig_ok && sum_ok)
                &&& (sig_ok && sum_ok && rp_valid(
                    self.outputs@[0].nonnegative_proof.spec_proof(),
                    self.outputs@[0].token@,
                ) && rp_valid(
                    self.outputs@[1].nonnegative_proof.spec_proof(),
                    self.outputs@[1].token@,
                ) ==> r == Result::<bool, Error>::Ok(true))
            }),
    {
        let mut outputs_bytes = self.outputs[0].to_bytes();
        let mut tail_bytes = self.outputs[1].to_bytes();
        outputs_bytes.append(&mut tail_bytes);
        if !verify(self.input.one_time_account.get_point(), &self.sign_msg, &mut outputs_bytes) {
            return Ok(false);
        }

        if !self.outputs[0].nonnegative_proof.verify(&self.outputs[0].token) {
            return Ok(false);
        }
        if !self.outputs[1].nonnegative_proof.verify(&self.outputs[1].token) {
            return Ok(false);
        }

        self.sum_proof.verify_sum_proof(
            &self.input.token,
            &self.outputs[0].token,
            &self.outputs[1].token,
        )
    }
}

} // verus!
