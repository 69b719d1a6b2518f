//! MLSAG per-ring-position state: a vector of key pairs together with the
//! signer's commitment randomness or a decoy's response scalars.

use vstd::prelude::*;
use crate::account::KeyPair;
use crate::group::{
    basepoint_g2, g2_enc, get_random_scalar, hash_point_of, hash_to_point, padd, padd_of,
    point_to_bytes, point_views, scalar_views, smul, smul_of, smul_sc_of, ssub_of, scalar_mul,
    scalar_sub, Point, Scalar,
};
use crate::transcript::{mlsag_challenge, mlsag_challenge_of};

verus! {

/// The smaller of two lengths, as zipping truncates to it.
pub open spec fn min2(a: nat, b: nat) -> nat {
    if a <= b {
        a
    } else {
        b
    }
}

/// The key image of a key: private key times the hash-to-point of the
/// public key's encoding.
pub open spec fn key_image_enc(sk: Seq<u8>, pk: Seq<u8>) -> Seq<u8> {
    smul_of(sk, hash_point_of(pk))
}

/// The key images of a key-pair vector, in order.
pub open spec fn key_images_enc(kps: Seq<KeyPair>) -> Seq<Seq<u8>> {
    kps.map_values(|kp: KeyPair| key_image_enc(kp.private_key@, kp.public_key@))
}

/// The public-key encodings of a key-pair vector, in order.
pub open spec fn pubkeys_enc(kps: Seq<KeyPair>) -> Seq<Seq<u8>> {
    kps.map_values(|kp: KeyPair| kp.public_key@)
}

/// The signer's first commitment terms: alpha_i·G2 for each key.
pub open spec fn signer_ls(kps: Seq<KeyPair>, alphas: Seq<Scalar>) -> Seq<Seq<u8>> {
    Seq::new(min2(kps.len(), alphas.len()), |i: int| smul_of(alphas[i]@, g2_enc()))
}

/// The signer's second commitment terms: alpha_i·H_point(pk_i) for each
/// key.
pub open spec fn signer_rs(kps: Seq<KeyPair>, alphas: Seq<Scalar>) -> Seq<Seq<u8>> {
    Seq::new(
        min2(kps.len(), alphas.len()),
        |i: int| smul_of(alphas[i]@, hash_point_of(kps[i].public_key@)),
    )
}

/// The signer's initial challenge: the ring transcript over the message and
/// the signer's commitment terms.
pub open spec fn signer_challenge_enc(kps: Seq<KeyPair>, alphas: Seq<Scalar>, msg: Seq<u8>) -> Seq<
    u8,
> {
    mlsag_challenge_of(msg, signer_ls(kps, alphas), signer_rs(kps, alphas))
}

/// A ring position's first terms under a running challenge c:
/// s_i·G2 + c·pk_i, for as many keys as all three vectors cover.
pub open spec fn ring_ls(
    pks: Seq<Seq<u8>>,
    ss: Seq<Seq<u8>>,
    kis: Seq<Seq<u8>>,
    c: Seq<u8>,
) -> Seq<Seq<u8>> {
    Seq::new(
        min2(min2(pks.len(), ss.len()), kis.len()),
        |i: int| padd_of(smul_of(ss[i], g2_enc()), smul_of(c, pks[i])),
    )
}

/// A ring position's second terms under a running challenge c:
/// s_i·H_point(pk_i) + c·key_image_i.
pub open spec fn ring_rs(
    pks: Seq<Seq<u8>>,
    ss: Seq<Seq<u8>>,
    kis: Seq<Seq<u8>>,
    c: Seq<u8>,
) -> Seq<Seq<u8>> {
    Seq::new(
        min2(min2(pks.len(), ss.len()), kis.len()),
        |i: int| padd_of(smul_of(ss[i], hash_point_of(pks[i])), smul_of(c, kis[i])),
    )
}

/// The next challenge of the ring: the transcript over the message and one
/// position's terms under the running challenge c.
pub open spec fn ring_challenge_enc(
    msg: Seq<u8>,
    pks: Seq<Seq<u8>>,
    ss: Seq<Seq<u8>>,
    kis: Seq<Seq<u8>>,
    c: Seq<u8>,
) -> Seq<u8> {
    mlsag_challenge_of(msg, ring_ls(pks, ss, kis, c), ring_rs(pks, ss, kis, c))
}

/// A vector of fresh random scalars of the requested length.
pub fn get_random_scalars(size: usize) -> (r: Vec<Scalar>)
    ensures
        r@.len() == size,
{
    let mut scalars: Vec<Scalar> = Vec::new();
    let mut i: usize = 0;
    while i < size
        invariant
            i <= size,
            scalars@.len() == i,
        decreases size - i,
    {
        scalars.push(get_random_scalar());
        i = i + 1;
    }
    scalars
}

impl KeyPair {
    /// One key pair's key image.
    pub fn compute_key_images(&self) -> (r: Point)
        ensures
            r@ == key_image_enc(self.private_key@, self.public_key@),
    {
        let pk_bytes = point_to_bytes(&self.public_key);
        let hash_public_key = hash_to_point(&pk_bytes);
        smul(&self.private_key, &hash_public_key)
    }
}

/// One ring position: its key pairs, and either the signer's random
/// commitment scalars or a decoy's random response scalars.
pub struct Material {
    pub key_pairs: Vec<KeyPair>,
    pub alpha_vec: Vec<Scalar>,
    pub s_vec: Vec<Scalar>,
}

impl Material {
    /// The signer position: one random commitment scalar per key.
    pub fn new_signer(key_pairs: Vec<KeyPair>) -> (r: Self)
        ensures
            r.key_pairs@ == key_pairs@,
            r.alpha_vec@.len() == key_pairs@.len(),
            r.s_vec@.len() == 0,
    {
        let alpha_vec = get_random_scalars(key_pairs.len());
        Material { key_pairs, alpha_vec, s_vec: Vec::new() }
    }

    /// A decoy position: one random response scalar per key.
    pub fn new_decoys(key_pairs: Vec<KeyPair>) -> (r: Self)
        ensures
            r.key_pairs@ == key_pairs@,
            r.s_vec@.len() == key_pairs@.len(),
            r.alpha_vec@.len() == 0,
    {
        let s_vec = get_random_scalars(key_pairs.len());
        Material { key_pairs, alpha_vec: Vec::new(), s_vec }
    }

    /// The key images of this position's keys, in order.
    pub fn compute_key_images(&self) -> (r: Vec<Point>)
        ensures
            point_views(r@) == key_images_enc(self.key_pairs@),
    {
        let mut images: Vec<Point> = Vec::new();
        let mut i: usize = 0;
        while i < self.key_pairs.len()
            invariant
                i <= self.key_pairs@.len(),
                images@.len() == i,
                forall|j: int|
                    0 <= j < i ==> images@[j]@ == key_image_enc(
                        self.key_pairs@[j].private_key@,
                        self.key_pairs@[j].public_key@,
                    ),
            decreases self.key_pairs@.len() - i,
        {
            images.push(self.key_pairs[i].compute_key_images());
            i = i + 1;
        }
        proof {
            assert(point_views(images@) =~= key_images_enc(self.key_pairs@));
        }
        images
    }

    /// The signer's initial challenge: binds the message and, per key, the
    /// two commitment terms alpha·G2 and alpha·H_point(pk).
    pub fn compute_signer_challenge(&self, msg: &[u8]) -> (r: Scalar)
        requires
            msg@.len() < 0x1_0000_0000,
        ensures
            r@ == signer_challenge_enc(self.key_pairs@, self.alpha_vec@, msg@),
    {
        let count = if self.key_pairs.len() <= self.alpha_vec.len() {
            self.key_pairs.len()
        } else {
            self.alpha_vec.len()
        };
        let mut ls: Vec<Point> = Vec::new();
        let mut rs: Vec<Point> = Vec::new();
        let g2 = basepoint_g2();
        let mut i: usize = 0;
        while i < count
            invariant
                i <= count,
                count == min2(self.key_pairs@.len(), self.alpha_vec@.len()),
                g2@ == g2_enc(),
                ls@.len() == i,
                rs@.len() == i,
                forall|j: int| 0 <= j < i ==> ls@[j]@ == smul_of(self.alpha_vec@[j]@, g2_enc()),
                forall|j: int|
                    0 <= j < i ==> rs@[j]@ == smul_of(
                        self.alpha_vec@[j]@,
                        hash_point_of(self.key_pairs@[j].public_key@),
                    ),
            decreases count - i,
        {
            let pk_bytes = point_to_bytes(&self.key_pairs[i].public_key);
            ls.push(smul(&self.alpha_vec[i], &g2));
            rs.push(smul(&self.alpha_vec[i], &hash_to_point(&pk_bytes)));
            i = i + 1;
        }
        proof {
            assert(point_views(ls@) =~= signer_ls(self.key_pairs@, self.alpha_vec@));
            assert(point_views(rs@) =~= signer_rs(self.key_pairs@, self.alpha_vec@));
        }
        mlsag_challenge(msg, &ls, &rs)
    }

    /// A decoy position's challenge: binds the message and, per key, the
    /// two terms s·G2 + c·pk and s·H_point(pk) + c·key_image under the
    /// running challenge c.
    pub fn compute_decoy_challenge(&self, msg: &[u8], c_pai: &Scalar, key_images: &Vec<Point>) -> (r:
        Scalar)
        requires
            msg@.len() < 0x1_0000_0000,
        ensures
            r@ == ring_challenge_enc(
                msg@,
                pubkeys_enc(self.key_pairs@),
                scalar_views(self.s_vec@),
                point_views(key_images@),
                c_pai@,
            ),
    {
        let c1 = if self.key_pairs.len() <= self.s_vec.len() {
            self.key_pairs.len()
        } else {
            self.s_vec.len()
        };
        let count = if c1 <= key_images.len() {
            c1
        } else {
            key_images.len()
        };
        let mut ls: Vec<Point> = Vec::new();
        let mut rs: Vec<Point> = Vec::new();
        let g2 = basepoint_g2();
        let mut i: usize = 0;
        while i < count
            invariant
                i <= count,
                count == min2(
                    min2(self.key_pairs@.len(), self.s_vec@.len()),
                    key_images@.len(),
                ),
                g2@ == g2_enc(),
                ls@.len() == i,
                rs@.len() == i,
                forall|j: int|
                    0 <= j < i ==> ls@[j]@ == padd_of(
                        smul_of(self.s_vec@[j]@, g2_enc()),
                        smul_of(c_pai@, self.key_pairs@[j].public_key@),
                    ),
                forall|j: int|
                    0 <= j < i ==> rs@[j]@ == padd_of(
                        smul_of(self.s_vec@[j]@, hash_point_of(self.key_pairs@[j].public_key@)),
                        smul_of(c_pai@, key_images@[j]@),
                    ),
            decreases count - i,
        {
            let pk_bytes = point_to_bytes(&self.key_pairs[i].public_key);
            ls.push(padd(&smul(&self.s_vec[i], &g2), &smul(c_pai, &self.key_pairs[i].public_key)));
            rs.push(padd(
                &smul(&self.s_vec[i], &hash_to_point(&pk_bytes)),
                &smul(c_pai, &key_images[i]),
            ));
            i = i + 1;
        }
        proof {
            assert(point_views(ls@) =~= ring_ls(
                pubkeys_enc(self.key_pairs@),
                scalar_views(self.s_vec@),
                point_views(key_images@),
                c_pai@,
            ));
            assert(point_views(rs@) =~= ring_rs(
                pubkeys_enc(self.key_pairs@),
                scalar_views(self.s_vec@),
                point_views(key_images@),
                c_pai@,
            ));
        }
        mlsag_challenge(msg, &ls, &rs)
    }

    /// The signer's responses to the final challenge: alpha_i - c·sk_i per
    /// key.
    pub fn compute_signer_s_vec(&self, c_pai: &Scalar) -> (r: Vec<Scalar>)
        ensures
            scalar_views(r@) == signer_responses(self.key_pairs@, self.alpha_vec@, c_pai@),
    {
        let count = if self.key_pairs.len() <= self.alpha_vec.len() {
            self.key_pairs.len()
        } else {
            self.alpha_vec.len()
        };
        let mut s_vec: Vec<Scalar> = Vec::new();
        let mut i: usize = 0;
        while i < count
            invariant
                i <= count,
                count == min2(self.key_pairs@.len(), self.alpha_vec@.len()),
                s_vec@.len() == i,
                forall|j: int|
                    0 <= j < i ==> s_vec@[j]@ == ssub_of(
                        self.alpha_vec@[j]@,
                        smul_sc_of(c_pai@, self.key_pairs@[j].private_key@),
                    ),
            decreases count - i,
        {
            let s = scalar_sub(&self.alpha_vec[i], &scalar_mul(c_pai, &self.key_pairs[i].private_key));
            s_vec.push(s);
            i = i + 1;
        }
        proof {
            assert(scalar_views(s_vec@) =~= signer_responses(
                self.key_pairs@,
                self.alpha_vec@,
                c_pai@,
            ));
        }
        s_vec
    }
}

/// The signer's responses: alpha_i - c·sk_i for each key the signer holds.
pub open spec fn signer_responses(kps: Seq<KeyPair>, alphas: Seq<Scalar>, c: Seq<u8>) -> Seq<
    Seq<u8>,
> {
    Seq::new(
        min2(kps.len(), alphas.len()),
        |i: int| ssub_of(alphas[i]@, smul_sc_of(c, kps[i].private_key@)),
    )
}

} // verus!
