//! Accounts and stealth one-time addressing.
//!
//! A recipient's long-term public key never appears on a transfer; instead
//! the sender derives a fresh one-time account and a blinding point through
//! a Diffie–Hellman exchange, and only the holder of the recipient's
//! private scalar can recover the one-time spending key.

use vstd::prelude::*;
use crate::error::Error;
use crate::group::{
    basepoint_g2, g2_enc, get_random_scalar, point_to_bytes, scalar_from_bytes32, scalar_mask,
    scalar_mul, smul, smul_of, smul_sc_of, Point, Scalar,
};
use crate::hash::{sha256_of, Hasher};

verus! {

/// A key pair: a private scalar and its public point private·G2.
#[derive(Debug, Clone, Copy)]
pub struct KeyPair {
    pub public_key: Point,
    pub private_key: Scalar,
}

/// The ephemeral pair of one stealth derivation: its public half, the
/// blinding point r·G2, is published beside the one-time account so the
/// recipient can re-derive the shared secret.
#[derive(Debug, Clone, Copy)]
pub struct BlindPair(pub KeyPair);

impl BlindPair {
    /// The published blinding point.
    pub fn get_blind_point(&self) -> (r: Point)
        ensures
            r@ == self.0.public_key@,
    {
        self.0.public_key
    }

    /// The ephemeral private scalar.
    pub fn get_blind(&self) -> (r: Scalar)
        ensures
            r@ == self.0.private_key@,
    {
        self.0.private_key
    }
}

/// The one-time account derived for a recipient public key pk with the
/// ephemeral scalar r: H_scalar(r·pk)·pk, the hash being the shared point's
/// encoding read back as a scalar.
pub open spec fn derived_account_enc(r: Seq<u8>, pk: Seq<u8>) -> Seq<u8> {
    smul_of(scalar_mask(smul_of(r, pk)), pk)
}

/// The symmetric key of one stealth derivation: the digest of r times the
/// derived one-time account.
pub open spec fn derived_key_enc(r: Seq<u8>, pk: Seq<u8>) -> Seq<u8> {
    sha256_of(smul_of(r, derived_account_enc(r, pk)))
}

/// The spending-key candidate that an account with private scalar sk
/// recovers from a blinding point bp: H_scalar(sk·bp)·sk.
pub open spec fn recovered_key_enc(sk: Seq<u8>, bp: Seq<u8>) -> Seq<u8> {
    smul_sc_of(scalar_mask(smul_of(sk, bp)), sk)
}

/// A long-term account: one key pair, the identity anchor of a party.
#[derive(Debug, Clone, Copy)]
pub struct Account(pub KeyPair);

impl Account {
    /// The account's public point.
    pub fn get_public_key(&self) -> (r: Point)
        ensures
            r@ == self.0.public_key@,
    {
        self.0.public_key
    }

    /// The account's private scalar.
    pub fn get_private_key(&self) -> (r: Scalar)
        ensures
            r@ == self.0.private_key@,
    {
        self.0.private_key
    }

    /// Creates an account from a fresh random private scalar.
    pub fn new() -> (r: Account)
        ensures
            r.0.public_key@ == smul_of(r.0.private_key@, g2_enc()),
    {
        let private_key = get_random_scalar();
        let public_key = smul(&private_key, &basepoint_g2());
        Account(KeyPair { private_key, public_key })
    }

    /// The account's stable address: the digest of its public point.
    pub fn to_address(&self) -> (r: Vec<u8>)
        ensures
            r@ == sha256_of(self.0.public_key@),
            r@.len() == 32,
    {
        let pubkey_bytes = point_to_bytes(&self.get_public_key());
        Hasher::sha_256(pubkey_bytes.as_slice())
    }

    /// Derives a one-time account for this account's public key, with the
    /// ephemeral blinding pair and the ECDH symmetric key; the ephemeral
    /// scalar is the returned blinding pair's private half.
    pub fn gen_one_time_account(&self) -> (r: (OneTimeAccount, BlindPair, Vec<u8>))
        ensures
            r.0@ == derived_account_enc(r.1.0.private_key@, self.0.public_key@),
            r.1.0.public_key@ == smul_of(r.1.0.private_key@, g2_enc()),
            r.2@ == derived_key_enc(r.1.0.private_key@, self.0.public_key@),
            r.2@.len() == 32,
    {
        let eph = get_random_scalar();
        let eph_point = smul(&eph, &basepoint_g2());

        let shared = smul(&eph, &self.get_public_key());
        let shared_bytes = point_to_bytes(&shared);
        let derive_scalar = scalar_from_bytes32(shared_bytes.as_slice());
        let one_time_account = smul(&derive_scalar, &self.get_public_key());

        let key_point = smul(&eph, &one_time_account);
        let key_bytes = point_to_bytes(&key_point);
        let symmetric_key = Hasher::sha_256(key_bytes.as_slice());

        let result = (
            OneTimeAccount(one_time_account),
            BlindPair(KeyPair { private_key: eph, public_key: eph_point }),
            symmetric_key,
        );
        proof {
            assert(result.0@ == derived_account_enc(eph@, self.0.public_key@));
        }
        result
    }
}

/// A stealth one-time public key; its private key is recoverable only by
/// the account whose public key was used in the derivation.
#[derive(Debug, Clone, Copy)]
pub struct OneTimeAccount(Point);

impl View for OneTimeAccount {
    type V = Seq<u8>;

    closed spec fn view(&self) -> Seq<u8> {
        self.0@
    }
}

impl OneTimeAccount {
    /// The one-time account's group element.
    pub fn get_point(&self) -> (r: Point)
        ensures
            r@ == self@,
    {
        self.0
    }

    /// Recovers the one-time private key from the published blinding point:
    /// the candidate H_scalar(sk·bp)·sk is accepted exactly when its public
    /// point equals this one-time account, so a returned key always opens
    /// this account; any other caller fails.
    pub fn get_private_key(&self, account: &Account, blind_point: Point) -> (r: Result<
        Scalar,
        Error,
    >)
        ensures
            r is Ok <==> smul_of(
                recovered_key_enc(account.0.private_key@, blind_point@),
                g2_enc(),
            ) == self@,
            r matches Ok(k) ==> {
                &&& k@ == recovered_key_enc(account.0.private_key@, blind_point@)
                &&& smul_of(k@, g2_enc()) == self@
            },
            r is Err ==> r == Result::<Scalar, Error>::Err(Error::NotRecipient),
    {
        let shared = smul(&account.get_private_key(), &blind_point);
        let shared_bytes = point_to_bytes(&shared);
        let derive_scalar = scalar_from_bytes32(shared_bytes.as_slice());
        let key = scalar_mul(&derive_scalar, &account.get_private_key());

        let expect_point = smul(&key, &basepoint_g2());
        if expect_point == self.0 {
            return Ok(key);
        }
        Err(Error::NotRecipient)
    }
}

} // verus!
