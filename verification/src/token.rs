//! Pedersen-commitment tokens and their encrypted openings.

use vstd::prelude::*;
use crate::aes::{cipher_of, decrypt, encrypt, plain_of};
use crate::bytes::read_integer;
use crate::error::Error;
use crate::group::{
    basepoint_g1, basepoint_g2, bytes_to_scalar, g1_enc, g2_enc, get_random_scalar, padd, padd_of,
    scalar_from_u64, scalar_mask, scalar_of_u64, smul, smul_of, Point, Scalar,
};

verus! {

/// The commitment encoding for a balance under a blinding scalar:
/// balance·G1 + blinding·G2.
pub open spec fn commit_enc(balance: u64, blind: Seq<u8>) -> Seq<u8> {
    padd_of(smul_of(scalar_of_u64(balance), g1_enc()), smul_of(blind, g2_enc()))
}

/// A Pedersen commitment to a balance: one group element, hiding and
/// binding, revealing nothing about the balance on its own.
#[derive(Clone, Copy, Debug)]
pub struct Token(Point);

impl View for Token {
    type V = Seq<u8>;

    closed spec fn view(&self) -> Seq<u8> {
        self.0@
    }
}

impl PartialEq for Token {
    fn eq(&self, other: &Token) -> (r: bool) {
        self.0 == other.0
    }
}

impl vstd::std_specs::cmp::PartialEqSpecImpl for Token {
    open spec fn obeys_eq_spec() -> bool {
        true
    }

    open spec fn eq_spec(&self, other: &Token) -> bool {
        self@ == other@
    }
}

/// The opening of a Token: its blinding scalar and balance. Known only to
/// the party who can decrypt it.
#[derive(Debug)]
pub struct TokenSecret {
    pub blind: Scalar,
    pub balance: u64,
}

impl Token {
    /// The commitment's group element.
    pub fn get_point(&self) -> (r: Point)
        ensures
            r@ == self@,
    {
        self.0
    }

    /// Commits to a balance under a fresh random blinding scalar and
    /// returns the commitment with its opening.
    pub fn mint(balance: u64) -> (r: (Token, TokenSecret))
        ensures
            r.0@ == commit_enc(balance, r.1.blind@),
            r.1.balance == balance,
            r.1.blind@.len() == 32,
            r.1.blind@[31] < 0x80,
    {
        let balance_scalar = scalar_from_u64(balance);
        let blind = get_random_scalar();
        let commitment = padd(
            &smul(&balance_scalar, &basepoint_g1()),
            &smul(&blind, &basepoint_g2()),
        );
        (Token(commitment), TokenSecret { blind, balance })
    }
}

/// A TokenSecret's ciphertext under a symmetric key, its balance and
/// blinding fields encrypted independently.
#[derive(Debug)]
pub struct EncryptoTokenSecret {
    pub balance_crypto: Vec<u8>,
    pub blind_crypto: Vec<u8>,
}

impl Clone for EncryptoTokenSecret {
    fn clone(&self) -> (r: Self)
        ensures
            r.balance_crypto@ == self.balance_crypto@,
            r.blind_crypto@ == self.blind_crypto@,
    {
        EncryptoTokenSecret {
            balance_crypto: self.balance_crypto.clone(),
            blind_crypto: self.blind_crypto.clone(),
        }
    }
}

/// Whether an encrypted secret decrypts under a key: the key has cipher
/// size, both fields decrypt, the balance plaintext holds at least eight
/// bytes and the blinding plaintext exactly thirty-two.
pub open spec fn decryptable(e_bal: Seq<u8>, e_blind: Seq<u8>, key: Seq<u8>) -> bool {
    &&& key.len() == 32
    &&& plain_of(e_bal, key) matches Some(p) && p.len() >= 8
    &&& plain_of(e_blind, key) matches Some(q) && q.len() == 32
}

/// The balance recovered from an encrypted balance field: the first eight
/// decrypted bytes, read little-endian first.
pub open spec fn decrypted_balance(e_bal: Seq<u8>, key: Seq<u8>) -> u64 {
    vstd::bytes::spec_u64_from_le_bytes(plain_of(e_bal, key)->Some_0.take(8))
}

/// The blinding scalar recovered from an encrypted blinding field: the
/// decrypted bytes read back as a scalar.
pub open spec fn decrypted_blind(e_blind: Seq<u8>, key: Seq<u8>) -> Seq<u8> {
    scalar_mask(plain_of(e_blind, key)->Some_0)
}

impl TokenSecret {
    /// Encrypts the balance (in its eight-byte little-endian form) and the
    /// blinding scalar (in its canonical byte form) independently under the
    /// symmetric key.
    pub fn encrypt(&self, symmetric_key: &Vec<u8>) -> (r: Result<EncryptoTokenSecret, Error>)
        ensures
            symmetric_key@.len() == 32 <==> r is Ok,
            r matches Ok(e) ==> {
                &&& e.balance_crypto@ == cipher_of(
                    vstd::bytes::spec_u64_to_le_bytes(self.balance),
                    symmetric_key@,
                )
                &&& e.blind_crypto@ == cipher_of(self.blind@, symmetric_key@)
                &&& plain_of(e.balance_crypto@, symmetric_key@) == Some(
                    vstd::bytes::spec_u64_to_le_bytes(self.balance),
                )
                &&& plain_of(e.blind_crypto@, symmetric_key@) == Some(self.blind@)
            },
            r is Err ==> r == Result::<EncryptoTokenSecret, Error>::Err(Error::CipherError),
    {
        let balance_bytes = vstd::bytes::u64_to_le_bytes(self.balance);
        let balance_crypto = match encrypt(balance_bytes.as_slice(), symmetric_key.as_slice()) {
            Ok(v) => v,
            Err(e) => {
                return Err(e);
            },
        };
        let blind_bytes = crate::group::scalar_to_bytes(&self.blind);
        let blind_crypto = match encrypt(blind_bytes.as_slice(), symmetric_key.as_slice()) {
            Ok(v) => v,
            Err(e) => {
                return Err(e);
            },
        };
        Ok(EncryptoTokenSecret { balance_crypto, blind_crypto })
    }
}

impl EncryptoTokenSecret {
    /// Decrypts both fields; fails with a decryption error if the cipher
    /// rejects either ciphertext or the recovered bytes do not rebuild a
    /// balance and a scalar.
    pub fn decrypt(&self, symmetric_key: &Vec<u8>) -> (r: Result<TokenSecret, Error>)
        ensures
            r is Ok <==> decryptable(self.balance_crypto@, self.blind_crypto@, symmetric_key@),
            r matches Ok(ts) ==> {
                &&& ts.balance == decrypted_balance(self.balance_crypto@, symmetric_key@)
                &&& ts.blind@ == decrypted_blind(self.blind_crypto@, symmetric_key@)
            },
            r is Err ==> r == Result::<TokenSecret, Error>::Err(Error::DecryptError),
    {
        let balance_bytes = match decrypt(self.balance_crypto.as_slice(), symmetric_key.as_slice()) {
            Ok(v) => v,
            Err(_) => {
                return Err(Error::DecryptError);
            },
        };
        if balance_bytes.len() < 8 {
            return Err(Error::DecryptError);
        }
        let balance = read_integer(balance_bytes.as_slice());
        let blind_bytes = match decrypt(self.blind_crypto.as_slice(), symmetric_key.as_slice()) {
            Ok(v) => v,
            Err(_) => {
                return Err(Error::DecryptError);
            },
        };
        let blind = match bytes_to_scalar(blind_bytes.as_slice()) {
            Ok(s) => s,
            Err(_) => {
                return Err(Error::DecryptError);
            },
        };
        Ok(TokenSecret { blind, balance })
    }
}

/// Token-secret round trip: an encrypted secret decrypts, and decrypts to
/// the balance and blinding scalar that were encrypted. The hypotheses are
/// exactly what `TokenSecret::encrypt` ensures of its result, for any
/// reduced blinding scalar.
pub proof fn lemma_token_secret_round_trip(
    balance: u64,
    blind: Seq<u8>,
    key: Seq<u8>,
    e_bal: Seq<u8>,
    e_blind: Seq<u8>,
)
    requires
        key.len() == 32,
        blind.len() == 32,
        blind[31] < 0x80,
        plain_of(e_bal, key) == Some(vstd::bytes::spec_u64_to_le_bytes(balance)),
        plain_of(e_blind, key) == Some(blind),
    ensures
        decryptable(e_bal, e_blind, key),
        decrypted_balance(e_bal, key) == balance,
        decrypted_blind(e_blind, key) == blind,
{
    vstd::bytes::lemma_auto_spec_u64_to_from_le_bytes();
    let le = vstd::bytes::spec_u64_to_le_bytes(balance);
    assert(le.take(8) =~= le);
    let b31 = blind[31];
    assert(b31 & 0x7f == b31) by (bit_vector)
        requires
            b31 < 0x80,
    ;
    assert(scalar_mask(blind) =~= blind);
}

} // verus!
