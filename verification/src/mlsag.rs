//! The MLSAG engine: a cyclic challenge chain over ring positions, the
//! signer last, and its verification by recomputing the chain.

use vstd::prelude::*;
use crate::account::KeyPair;
use crate::group::{
    basepoint_g2, g2_enc, hash_point_of, hash_to_point, padd, padd_of, point_to_bytes,
    point_views, scalar_views, smul, smul_of, Point, Scalar,
};
use crate::material::{
    key_images_enc, min2, pubkeys_enc, ring_challenge_enc, ring_ls, ring_rs,
    signer_challenge_enc, signer_responses, Material,
};
use crate::transcript::mlsag_challenge;

verus! {

/// The challenge after folding a sequence of decoy positions, front to
/// back, into a running challenge: each position's transcript turns the
/// running challenge into the next one.
pub open spec fn decoy_chain(
    decoys: Seq<Material>,
    msg: Seq<u8>,
    kis: Seq<Seq<u8>>,
    c: Seq<u8>,
) -> Seq<u8>
    decreases decoys.len(),
{
    if decoys.len() == 0 {
        c
    } else {
        decoy_chain(
            decoys.drop_first(),
            msg,
            kis,
            ring_challenge_enc(
                msg,
                pubkeys_enc(decoys[0].key_pairs@),
                scalar_views(decoys[0].s_vec@),
                kis,
                c,
            ),
        )
    }
}

/// The challenge after recomputing the whole stored ring, front to back,
/// from an initial challenge: one transcript per position over its stored
/// public keys and responses.
pub open spec fn verify_chain(
    pkss: Seq<Seq<Seq<u8>>>,
    sss: Seq<Seq<Seq<u8>>>,
    kis: Seq<Seq<u8>>,
    msg: Seq<u8>,
    c: Seq<u8>,
) -> Seq<u8>
    decreases sss.len(),
{
    if sss.len() == 0 || pkss.len() == 0 {
        c
    } else {
        verify_chain(
            pkss.drop_first(),
            sss.drop_first(),
            kis,
            msg,
            ring_challenge_enc(msg, pkss[0], sss[0], kis, c),
        )
    }
}

/// The encodings of a ring's public-key vectors.
pub open spec fn point_views2(s: Seq<Vec<Point>>) -> Seq<Seq<Seq<u8>>> {
    s.map_values(|v: Vec<Point>| point_views(v@))
}

/// The encodings of a ring's response vectors.
pub open spec fn scalar_views2(s: Seq<Vec<Scalar>>) -> Seq<Seq<Seq<u8>>> {
    s.map_values(|v: Vec<Scalar>| scalar_views(v@))
}

/// A ring to be signed: the signer's position and its decoy positions.
pub struct Mlsag {
    pub decoys: Vec<Material>,
    pub signer: Material,
}

/// A completed ring signature: every position's public-key vector in ring
/// order (decoys first, signer last), the signer's key images, the initial
/// challenge, and every position's response vector in the same order.
pub struct Signarute {
    pub public_keys: Vec<Vec<Point>>,
    pub key_images: Vec<Point>,
    pub c: Scalar,
    pub s: Vec<Vec<Scalar>>,
}

/// Whether a ring signature is the engine's signature of a message by a
/// ring: the key images, the stored initial challenge, the ring layout
/// (decoys first, signer last) and every response row are exactly what the
/// signing protocol computes for the ring's materials on that message.
pub open spec fn mlsag_signed(r: Signarute, m: Mlsag, msg: Seq<u8>) -> bool {
    let c0 = signer_challenge_enc(m.signer.key_pairs@, m.signer.alpha_vec@, msg);
    let kis = key_images_enc(m.signer.key_pairs@);
    let n = m.decoys@.len() as int;
    &&& point_views(r.key_images@) == kis
    &&& r.c@ == c0
    &&& r.public_keys@.len() == n + 1
    &&& r.s@.len() == n + 1
    &&& (forall|i: int|
        0 <= i < n ==> point_views(r.public_keys@[i]@) == pubkeys_enc(
            #[trigger] m.decoys@[i].key_pairs@,
        ) && scalar_views(r.s@[i]@) == scalar_views(m.decoys@[i].s_vec@))
    &&& point_views(r.public_keys@[n]@) == pubkeys_enc(m.signer.key_pairs@)
    &&& scalar_views(r.s@[n]@) == signer_responses(
        m.signer.key_pairs@,
        m.signer.alpha_vec@,
        decoy_chain(m.decoys@, msg, kis, c0),
    )
}

impl Mlsag {
    /// Installs the signer position, built from its key pairs.
    pub fn add_signer(&mut self, key_pairs: Vec<KeyPair>)
        ensures
            final(self).signer.key_pairs@ == key_pairs@,
            final(self).signer.alpha_vec@.len() == key_pairs@.len(),
            final(self).signer.s_vec@.len() == 0,
            final(self).decoys@ == old(self).decoys@,
    {
        self.signer = Material::new_signer(key_pairs)
    }

    /// Appends one decoy position, built from its key pairs.
    pub fn add_decopys(&mut self, key_pairs: Vec<KeyPair>)
        ensures
            final(self).decoys@.len() == old(self).decoys@.len() + 1,
            final(self).decoys@.last().key_pairs@ == key_pairs@,
            final(self).decoys@.last().s_vec@.len() == key_pairs@.len(),
            final(self).decoys@.last().alpha_vec@.len() == 0,
            final(self).decoys@.take(old(self).decoys@.len() as int) == old(self).decoys@,
            final(self).signer == old(self).signer,
    {
        self.decoys.push(Material::new_decoys(key_pairs));
        proof {
            assert(final(self).decoys@.take(old(self).decoys@.len() as int) =~= old(
                self,
            ).decoys@);
        }
    }

    /// Signs a message: computes the signer's key images and initial
    /// challenge, folds every decoy position into the challenge chain, and
    /// closes the ring with the signer's responses to the last challenge.
    /// The signature stores the positions decoys first, signer last, and
    /// carries the first challenge.
    pub fn sign(&self, msg: &[u8]) -> (r: Signarute)
        requires
            msg@.len() < 0x1_0000_0000,
        ensures
            mlsag_signed(r, *self, msg@),
    {
        let key_images = self.compute_key_images();
        let mut c_pai = self.compute_signer_challenge(msg);
        let c_first = c_pai;

        let ghost c0 = c_pai@;
        let ghost kis = key_images_enc(self.signer.key_pairs@);

        proof {
            assert(self.decoys@.skip(0) =~= self.decoys@);
        }
        let mut i: usize = 0;
        while i < self.decoys.len()
            invariant
                i <= self.decoys@.len(),
                msg@.len() < 0x1_0000_0000,
                point_views(key_images@) == kis,
                kis == key_images_enc(self.signer.key_pairs@),
                decoy_chain(self.decoys@.skip(i as int), msg@, kis, c_pai@) == decoy_chain(
                    self.decoys@,
                    msg@,
                    kis,
                    c0,
                ),
            decreases self.decoys@.len() - i,
        {
            proof {
                assert(self.decoys@.skip(i as int).drop_first() =~= self.decoys@.skip(i as int + 1));
            }
            c_pai = self.decoys[i].compute_decoy_challenge(msg, &c_pai, &key_images);
            i = i + 1;
        }
        proof {
            assert(self.decoys@.skip(self.decoys@.len() as int) =~= Seq::<Material>::empty());
        }

        let mut s_vec: Vec<Vec<Scalar>> = Vec::new();
        let mut public_key_vec: Vec<Vec<Point>> = Vec::new();
        let mut j: usize = 0;
        while j < self.decoys.len()
            invariant
                j <= self.decoys@.len(),
                s_vec@.len() == j,
                public_key_vec@.len() == j,
                forall|k: int|
                    0 <= k < j ==> point_views(public_key_vec@[k]@) == pubkeys_enc(
                        #[trigger] self.decoys@[k].key_pairs@,
                    ) && scalar_views(s_vec@[k]@) == scalar_views(self.decoys@[k].s_vec@),
            decreases self.decoys@.len() - j,
        {
            s_vec.push(copy_scalars(&self.decoys[j].s_vec));
            public_key_vec.push(extract_public_keys(&self.decoys[j].key_pairs));
            j = j + 1;
        }
        s_vec.push(self.compute_signer_s_vec(&c_pai));
        public_key_vec.push(extract_public_keys(&self.signer.key_pairs));

        let r = Signarute { public_keys: public_key_vec, key_images, c: c_first, s: s_vec };
        proof {
            let n = self.decoys@.len() as int;
            assert(point_views(r.key_images@) == key_images_enc(self.signer.key_pairs@));
            assert(r.c@ == signer_challenge_enc(self.signer.key_pairs@, self.signer.alpha_vec@, msg@));
            assert(r.public_keys@.len() == n + 1);
            assert(r.s@.len() == n + 1);
            assert(forall|i: int|
                0 <= i < n ==> point_views(r.public_keys@[i]@) == pubkeys_enc(
                    #[trigger] self.decoys@[i].key_pairs@,
                ) && scalar_views(r.s@[i]@) == scalar_views(self.decoys@[i].s_vec@));
            assert(point_views(r.public_keys@[n]@) == pubkeys_enc(self.signer.key_pairs@));
            assert(scalar_views(r.s@[n]@) == signer_responses(
                self.signer.key_pairs@,
                self.signer.alpha_vec@,
                decoy_chain(self.decoys@, msg@, key_images_enc(self.signer.key_pairs@),
                    signer_challenge_enc(self.signer.key_pairs@, self.signer.alpha_vec@, msg@)),
            ));
            assert(mlsag_signed(r, *self, msg@));
        }
        r
    }
}

impl Mlsag {
    /// The signer's key images.
    fn compute_key_images(&self) -> (r: Vec<Point>)
        ensures
            point_views(r@) == key_images_enc(self.signer.key_pairs@),
    {
        self.signer.compute_key_images()
    }

    /// The signer's initial challenge.
    fn compute_signer_challenge(&self, msg: &[u8]) -> (r: Scalar)
        requires
            msg@.len() < 0x1_0000_0000,
        ensures
            r@ == signer_challenge_enc(self.signer.key_pairs@, self.signer.alpha_vec@, msg@),
    {
        self.signer.compute_signer_challenge(msg)
    }

    /// The signer's responses to the final challenge of the chain.
    pub fn compute_signer_s_vec(&self, c_pai: &Scalar) -> (r: Vec<Scalar>)
        ensures
            scalar_views(r@) == signer_responses(
                self.signer.key_pairs@,
                self.signer.alpha_vec@,
                c_pai@,
            ),
    {
        self.signer.compute_signer_s_vec(c_pai)
    }
}

/// A copy of a scalar vector.
fn copy_scalars(v: &Vec<Scalar>) -> (r: Vec<Scalar>)
    ensures
        r@ == v@,
{
    let mut out: Vec<Scalar> = Vec::new();
    let mut i: usize = 0;
    while i < v.len()
        invariant
            i <= v@.len(),
            out@ =~= v@.take(i as int),
        decreases v@.len() - i,
    {
        out.push(v[i]);
        i = i + 1;
    }
    proof {
        assert(out@ =~= v@);
    }
    out
}

/// The public halves of a key-pair vector, in order.
fn extract_public_keys(kps: &Vec<KeyPair>) -> (r: Vec<Point>)
    ensures
        point_views(r@) == pubkeys_enc(kps@),
{
    let mut out: Vec<Point> = Vec::new();
    let mut i: usize = 0;
    while i < kps.len()
        invariant
            i <= kps@.len(),
            out@.len() == i,
            forall|j: int| 0 <= j < i ==> out@[j]@ == kps@[j].public_key@,
        decreases kps@.len() - i,
    {
        out.push(kps[i].public_key);
        i = i + 1;
    }
    proof {
        assert(point_views(out@) =~= pubkeys_enc(kps@));
    }
    out
}

impl Signarute {
    /// Verifies the ring: starting from the stored initial challenge,
    /// recomputes every position's challenge in the stored order and
    /// accepts exactly when the chain closes on the initial challenge.
    pub fn verify(&self, msg: &[u8]) -> (r: bool)
        requires
            msg@.len() < 0x1_0000_0000,
        ensures
            r == (verify_chain(
                point_views2(self.public_keys@),
                scalar_views2(self.s@),
                point_views(self.key_images@),
                msg@,
                self.c@,
            ) == self.c@),
    {
        let mut c_pai = self.c;
        let count = if self.s.len() <= self.public_keys.len() {
            self.s.len()
        } else {
            self.public_keys.len()
        };
        let ghost pkss = point_views2(self.public_keys@);
        let ghost sss = scalar_views2(self.s@);
        proof {
            assert(pkss.skip(0) =~= pkss);
            assert(sss.skip(0) =~= sss);
        }
        let mut i: usize = 0;
        while i < count
            invariant
                i <= count,
                msg@.len() < 0x1_0000_0000,
                count == if self.s@.len() <= self.public_keys@.len() {
                    self.s@.len()
                } else {
                    self.public_keys@.len()
                },
                pkss == point_views2(self.public_keys@),
                sss == scalar_views2(self.s@),
                verify_chain(
                    pkss.skip(i as int),
                    sss.skip(i as int),
                    point_views(self.key_images@),
                    msg@,
                    c_pai@,
                ) == verify_chain(pkss, sss, point_views(self.key_images@), msg@, self.c@),
            decreases count - i,
        {
            proof {
                assert(pkss.skip(i as int).drop_first() =~= pkss.skip(i as int + 1));
                assert(sss.skip(i as int).drop_first() =~= sss.skip(i as int + 1));
            }
            c_pai = ring_position_challenge(
                msg,
                &self.public_keys[i],
                &self.s[i],
                &self.key_images,
                &c_pai,
            );
            i = i + 1;
        }
        proof {
            if self.s@.len() <= self.public_keys@.len() {
                assert(sss.skip(count as int).len() == 0);
            } else {
                assert(pkss.skip(count as int).len() == 0);
            }
        }
        c_pai == self.c
    }
}

/// One position's challenge during verification: the ring transcript over
/// the stored public keys and responses under the running challenge.
fn ring_position_challenge(
    msg: &[u8],
    pks: &Vec<Point>,
    ss: &Vec<Scalar>,
    key_images: &Vec<Point>,
    c_pai: &Scalar,
) -> (r: Scalar)
    requires
        msg@.len() < 0x1_0000_0000,
    ensures
        r@ == ring_challenge_enc(
            msg@,
            point_views(pks@),
            scalar_views(ss@),
            point_views(key_images@),
            c_pai@,
        ),
{
    let c1 = if pks.len() <= ss.len() {
        pks.len()
    } else {
        ss.len()
    };
    let count = if c1 <= key_images.len() {
        c1
    } else {
        key_images.len()
    };
    let mut ls: Vec<Point> = Vec::new();
    let mut rs: Vec<Point> = Vec::new();
    let g2 = basepoint_g2();
    let mut i: usize = 0;
    while i < count
        invariant
            i <= count,
            count == min2(min2(pks@.len(), ss@.len()), key_images@.len()),
            g2@ == g2_enc(),
            ls@.len() == i,
            rs@.len() == i,
            forall|j: int|
                0 <= j < i ==> ls@[j]@ == padd_of(
                    smul_of(ss@[j]@, g2_enc()),
                    smul_of(c_pai@, pks@[j]@),
                ),
            forall|j: int|
                0 <= j < i ==> rs@[j]@ == padd_of(
                    smul_of(ss@[j]@, hash_point_of(pks@[j]@)),
                    smul_of(c_pai@, key_images@[j]@),
                ),
        decreases count - i,
    {
        let pk_bytes = point_to_bytes(&pks[i]);
        ls.push(padd(&smul(&ss[i], &g2), &smul(c_pai, &pks[i])));
        rs.push(padd(&smul(&ss[i], &hash_to_point(&pk_bytes)), &smul(c_pai, &key_images[i])));
        i = i + 1;
    }
    proof {
        assert(point_views(ls@) =~= ring_ls(
            point_views(pks@),
            scalar_views(ss@),
            point_views(key_images@),
            c_pai@,
        ));
        assert(point_views(rs@) =~= ring_rs(
            point_views(pks@),
            scalar_views(ss@),
            point_views(key_images@),
            c_pai@,
        ));
    }
    mlsag_challenge(msg, &ls, &rs)
}

} // verus!
