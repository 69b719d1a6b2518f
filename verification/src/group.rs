//! Group-element and scalar wrappers over the ristretto255 group.
//!
//! A `Point` holds the canonical 32-byte compressed encoding of a group
//! element; a `Scalar` holds the 32-byte little-endian form of a scalar.
//! Every group computation is performed by the outside curve library through
//! a trusted wrapper whose result is pinned to an uninterpreted name, so that
//! the protocol layers above can state exactly which combination of group
//! operations they perform.

use vstd::prelude::*;
use crate::error::Error;

verus! {

/// Whether a 32-byte buffer is the canonical encoding of a ristretto255
/// group element.
pub uninterp spec fn is_point_enc(b: Seq<u8>) -> bool;

/// The canonical encoding of s·P, for scalar bytes s and point encoding p.
pub uninterp spec fn smul_of(s: Seq<u8>, p: Seq<u8>) -> Seq<u8>;

/// The canonical encoding of P + Q.
pub uninterp spec fn padd_of(p: Seq<u8>, q: Seq<u8>) -> Seq<u8>;

/// The canonical encoding of P - Q.
pub uninterp spec fn psub_of(p: Seq<u8>, q: Seq<u8>) -> Seq<u8>;

/// The canonical encoding of the group element obtained by hashing a byte
/// string to the curve.
pub uninterp spec fn hash_point_of(b: Seq<u8>) -> Seq<u8>;

/// 256^k.
pub open spec fn pow256(k: nat) -> nat
    decreases k,
{
    if k == 0 {
        1
    } else {
        256 * pow256((k - 1) as nat)
    }
}

/// The order of the ristretto255 group:
/// 2^252 + 27742317777372353535851937790883648493.
pub open spec fn group_order() -> nat {
    16 * pow256(31) + 27742317777372353535851937790883648493
}

/// The value that a little-endian byte string encodes.
pub open spec fn le_value(s: Seq<u8>) -> nat
    decreases s.len(),
{
    if s.len() == 0 {
        0
    } else {
        s[0] as nat + 256 * le_value(s.skip(1))
    }
}

/// The 32 little-endian bytes of a value below 2^256.
pub open spec fn le32_of(n: nat) -> Seq<u8> {
    Seq::new(32, |i: int| ((n / pow256(i as nat)) % 256) as u8)
}

/// The canonical scalar encoding of a 64-bit integer: its value in 32
/// little-endian bytes. Opaque: the protocol never computes with it, it
/// only states which scalar the curve library builds.
#[verifier::opaque]
pub open spec fn scalar_of_u64(v: u64) -> Seq<u8> {
    le32_of(v as nat)
}

/// The canonical encoding of a + b mod the group order, reading both
/// operands as little-endian values. Opaque, as `scalar_of_u64`.
#[verifier::opaque]
pub open spec fn sadd_of(a: Seq<u8>, b: Seq<u8>) -> Seq<u8> {
    le32_of((le_value(a) + le_value(b)) % group_order())
}

/// The canonical encoding of a - b mod the group order. Opaque, as
/// `scalar_of_u64`.
#[verifier::opaque]
pub open spec fn ssub_of(a: Seq<u8>, b: Seq<u8>) -> Seq<u8> {
    le32_of((((le_value(a) as int - le_value(b) as int) % (group_order() as int))) as nat)
}

/// The canonical encoding of a · b mod the group order. Opaque, as
/// `scalar_of_u64`.
#[verifier::opaque]
pub open spec fn smul_sc_of(a: Seq<u8>, b: Seq<u8>) -> Seq<u8> {
    le32_of((le_value(a) * le_value(b)) % group_order())
}

/// The canonical encoding of a 256-bit little-endian integer reduced mod
/// the group order. Opaque, as `scalar_of_u64`.
#[verifier::opaque]
pub open spec fn scalar_mod_of(b: Seq<u8>) -> Seq<u8> {
    le32_of(le_value(b) % group_order())
}

/// The canonical encoding of the ristretto255 basepoint, the first Pedersen
/// generator.
pub open spec fn g1_enc() -> Seq<u8> {
    seq![
        0xe2u8, 0xf2, 0xae, 0x0a, 0x6a, 0xbc, 0x4e, 0x71,
        0xa8, 0x84, 0xa9, 0x61, 0xc5, 0x00, 0x51, 0x5f,
        0x58, 0xe3, 0x0b, 0x6a, 0xa5, 0x82, 0xdd, 0x8d,
        0xb6, 0xa6, 0x59, 0x45, 0xe0, 0x8d, 0x2d, 0x76,
    ]
}

/// The second Pedersen generator: the basepoint's encoding hashed to the
/// curve.
pub open spec fn g2_enc() -> Seq<u8> {
    hash_point_of(g1_enc())
}

/// The 32 zero bytes: the canonical encoding of the group identity, and
/// also of the zero scalar.
pub open spec fn identity_enc() -> Seq<u8> {
    Seq::new(32, |i: int| 0u8)
}

/// A scalar's bytes with the top bit of the last byte cleared: how a raw
/// 32-byte buffer is read back as a scalar.
pub open spec fn scalar_mask(b: Seq<u8>) -> Seq<u8> {
    b.update(31, (b[31] & 0x7f) as u8)
}

/// A ristretto255 group element, held as its canonical compressed encoding.
#[derive(Clone, Copy, Debug)]
pub struct Point {
    bytes: [u8; 32],
}

impl View for Point {
    type V = Seq<u8>;

    closed spec fn view(&self) -> Seq<u8> {
        self.bytes@
    }
}

impl Point {
    /// Every group element the library holds is a canonical 32-byte
    /// encoding.
    #[verifier::type_invariant]
    pub open spec fn inv(self) -> bool {
        self@.len() == 32 && is_point_enc(self@)
    }
}

impl PartialEq for Point {
    fn eq(&self, other: &Point) -> (r: bool) {
        bytes32_eq(&self.bytes, &other.bytes)
    }
}

impl vstd::std_specs::cmp::PartialEqSpecImpl for Point {
    open spec fn obeys_eq_spec() -> bool {
        true
    }

    open spec fn eq_spec(&self, other: &Point) -> bool {
        self@ == other@
    }
}

/// A scalar of the ristretto255 group, held in its 32-byte little-endian
/// form. Every value the library constructs is reduced, so the top bit of
/// the last byte is clear.
#[derive(Clone, Copy, Debug)]
pub struct Scalar {
    bytes: [u8; 32],
}

impl View for Scalar {
    type V = Seq<u8>;

    closed spec fn view(&self) -> Seq<u8> {
        self.bytes@
    }
}

impl Scalar {
    /// Every scalar the library constructs is reduced: 32 bytes with the
    /// top bit of the last byte clear.
    #[verifier::type_invariant]
    pub open spec fn inv(self) -> bool {
        self@.len() == 32 && self@[31] < 0x80
    }

    /// The scalar zero.
    pub fn zero() -> (r: Scalar)
        ensures
            r@ == identity_enc(),
    {
        let bytes = [0u8; 32];
        proof {
            assert(bytes@ =~= identity_enc());
        }
        Scalar { bytes }
    }
}

impl PartialEq for Scalar {
    fn eq(&self, other: &Scalar) -> (r: bool) {
        bytes32_eq(&self.bytes, &other.bytes)
    }
}

impl vstd::std_specs::cmp::PartialEqSpecImpl for Scalar {
    open spec fn obeys_eq_spec() -> bool {
        true
    }

    open spec fn eq_spec(&self, other: &Scalar) -> bool {
        self@ == other@
    }
}

/// The encodings of a sequence of group elements.
pub open spec fn point_views(ps: Seq<Point>) -> Seq<Seq<u8>> {
    ps.map_values(|p: Point| p@)
}

/// The encodings of a sequence of scalars.
pub open spec fn scalar_views(ss: Seq<Scalar>) -> Seq<Seq<u8>> {
    ss.map_values(|s: Scalar| s@)
}

/// A borrowed view of a group element's canonical encoding.
pub(crate) fn point_bytes(p: &Point) -> (r: &[u8; 32])
    ensures
        r@ == p@,
{
    &p.bytes
}

/// A borrowed view of a scalar's canonical encoding.
pub(crate) fn scalar_bytes(s: &Scalar) -> (r: &[u8; 32])
    ensures
        r@ == s@,
{
    &s.bytes
}

/// Compares two 32-byte buffers.
fn bytes32_eq(a: &[u8; 32], b: &[u8; 32]) -> (r: bool)
    ensures
        r <==> a@ == b@,
{
    let mut i: usize = 0;
    while i < 32
        invariant
            i <= 32,
            forall|j: int| 0 <= j < i ==> a@[j] == b@[j],
        decreases 32 - i,
    {
        if a[i] != b[i] {
            return false;
        }
        i = i + 1;
    }
    proof {
        assert(a@ =~= b@);
    }
    true
}

/// Relies on curve25519_dalek::ristretto::CompressedRistretto::decompress:
/// it accepts exactly the canonical 32-byte ristretto255 encodings, and the
/// accepted buffer is the canonical encoding of the point it returns.
#[verifier::external_body]
fn decompress_point(b: &[u8]) -> (r: Option<Point>)
    requires
        b@.len() == 32,
    ensures
        r is Some <==> is_point_enc(b@),
        r matches Some(p) ==> p@ == b@,
{
    let c = curve25519_dalek::ristretto::CompressedRistretto::from_slice(b);
    match c.decompress() {
        Some(_) => Some(Point { bytes: c.to_bytes() }),
        None => None,
    }
}

/// Decodes a buffer as a group element; exactly the canonical 32-byte
/// encodings are accepted.
pub fn bytes_to_point(point: &[u8]) -> (r: Result<Point, Error>)
    ensures
        r is Ok <==> (point@.len() == 32 && is_point_enc(point@)),
        r matches Ok(p) ==> p@ == point@,
        r is Err ==> r == Result::<Point, Error>::Err(Error::ParseError),
{
    if point.len() != 32 {
        return Err(Error::ParseError);
    }
    match decompress_point(point) {
        Some(p) => Ok(p),
        None => Err(Error::ParseError),
    }
}

/// A group element's canonical 32-byte encoding.
pub fn point_to_bytes(point: &Point) -> (r: Vec<u8>)
    ensures
        r@ == point@,
        r@.len() == 32,
{
    vstd::slice::slice_to_vec(point.bytes.as_slice())
}

/// A scalar's canonical 32-byte encoding.
pub fn scalar_to_bytes(input: &Scalar) -> (r: Vec<u8>)
    ensures
        r@ == input@,
        r@.len() == 32,
{
    vstd::slice::slice_to_vec(input.bytes.as_slice())
}

/// Reads a 32-byte buffer back as a scalar, clearing the top bit as the
/// curve library's raw-scalar constructor does; only the length is checked.
pub fn bytes_to_scalar(input: &[u8]) -> (r: Result<Scalar, Error>)
    ensures
        r is Ok <==> input@.len() == 32,
        r matches Ok(s) ==> s@ == scalar_mask(input@),
        r is Err ==> r == Result::<Scalar, Error>::Err(Error::ParseError),
{
    if input.len() != 32 {
        return Err(Error::ParseError);
    }
    Ok(scalar_from_bytes32(input))
}

/// Reads exactly 32 bytes back as a scalar, clearing the top bit.
pub(crate) fn scalar_from_bytes32(input: &[u8]) -> (r: Scalar)
    requires
        input@.len() == 32,
    ensures
        r@ == scalar_mask(input@),
{
    let mut bytes = [0u8; 32];
    let mut i: usize = 0;
    while i < 31
        invariant
            i <= 31,
            input@.len() == 32,
            bytes@.len() == 32,
            forall|j: int| 0 <= j < i ==> bytes@[j] == input@[j],
        decreases 31 - i,
    {
        bytes[i] = input[i];
        i = i + 1;
    }
    let top: u8 = input[31] & 0x7f;
    proof {
        assert(forall|x: u8| #[trigger] (x & 0x7f) < 0x80) by (bit_vector);
    }
    bytes[31] = top;
    proof {
        assert(bytes@ =~= scalar_mask(input@));
    }
    Scalar { bytes }
}

/// Relies on curve25519_dalek::scalar::Scalar::from_bytes_mod_order_wide and
/// rand's OsRng: a uniformly random reduced scalar. Nothing is promised of
/// the value beyond its being reduced.
#[verifier::external_body]
pub fn get_random_scalar() -> (r: Scalar)
    ensures
        r@.len() == 32,
        r@[31] < 0x80,
{
    let mut wide = [0u8; 64];
    rand::RngCore::fill_bytes(&mut rand::rngs::OsRng, &mut wide);
    let s = curve25519_dalek::scalar::Scalar::from_bytes_mod_order_wide(&wide);
    Scalar { bytes: s.to_bytes() }
}

/// Relies on curve25519_dalek::scalar::Scalar::from::<u64>: the canonical
/// scalar encoding of a 64-bit integer.
#[verifier::external_body]
pub(crate) fn scalar_from_u64(v: u64) -> (r: Scalar)
    ensures
        r@ == scalar_of_u64(v),
{
    let s = curve25519_dalek::scalar::Scalar::from(v);
    Scalar { bytes: s.to_bytes() }
}

/// Relies on curve25519_dalek::scalar::Scalar::from_bytes_mod_order: a
/// 256-bit little-endian integer reduced mod the group order.
#[verifier::external_body]
pub(crate) fn scalar_from_bytes_mod_order(b: &Vec<u8>) -> (r: Scalar)
    requires
        b@.len() == 32,
    ensures
        r@ == scalar_mod_of(b@),
{
    let mut arr = [0u8; 32];
    arr.copy_from_slice(b.as_slice());
    let s = curve25519_dalek::scalar::Scalar::from_bytes_mod_order(arr);
    Scalar { bytes: s.to_bytes() }
}

/// Relies on curve25519_dalek scalar addition: reduced scalar sum.
#[verifier::external_body]
pub(crate) fn scalar_add(a: &Scalar, b: &Scalar) -> (r: Scalar)
    ensures
        r@ == sadd_of(a@, b@),
{
    let x = curve25519_dalek::scalar::Scalar::from_bits(a.bytes);
    let y = curve25519_dalek::scalar::Scalar::from_bits(b.bytes);
    Scalar { bytes: (x + y).to_bytes() }
}

/// Relies on curve25519_dalek scalar subtraction: reduced scalar difference.
#[verifier::external_body]
pub(crate) fn scalar_sub(a: &Scalar, b: &Scalar) -> (r: Scalar)
    ensures
        r@ == ssub_of(a@, b@),
{
    let x = curve25519_dalek::scalar::Scalar::from_bits(a.bytes);
    let y = curve25519_dalek::scalar::Scalar::from_bits(b.bytes);
    Scalar { bytes: (x - y).to_bytes() }
}

/// Relies on curve25519_dalek scalar multiplication: reduced scalar product.
#[verifier::external_body]
pub(crate) fn scalar_mul(a: &Scalar, b: &Scalar) -> (r: Scalar)
    ensures
        r@ == smul_sc_of(a@, b@),
{
    let x = curve25519_dalek::scalar::Scalar::from_bits(a.bytes);
    let y = curve25519_dalek::scalar::Scalar::from_bits(b.bytes);
    Scalar { bytes: (x * y).to_bytes() }
}

/// Relies on curve25519_dalek scalar-point multiplication: the canonical
/// encoding of s·P.
#[verifier::external_body]
pub fn smul(s: &Scalar, p: &Point) -> (r: Point)
    ensures
        r@ == smul_of(s@, p@),
{
    let sc = curve25519_dalek::scalar::Scalar::from_bits(s.bytes);
    let pt = curve25519_dalek::ristretto::CompressedRistretto(p.bytes)
        .decompress()
        .expect("canonical encoding");
    Point { bytes: (sc * pt).compress().to_bytes() }
}

/// Relies on curve25519_dalek point addition: the canonical encoding of
/// P + Q.
#[verifier::external_body]
pub(crate) fn padd(p: &Point, q: &Point) -> (r: Point)
    ensures
        r@ == padd_of(p@, q@),
{
    let a = curve25519_dalek::ristretto::CompressedRistretto(p.bytes)
        .decompress()
        .expect("canonical encoding");
    let b = curve25519_dalek::ristretto::CompressedRistretto(q.bytes)
        .decompress()
        .expect("canonical encoding");
    Point { bytes: (a + b).compress().to_bytes() }
}

/// Relies on curve25519_dalek point subtraction: the canonical encoding of
/// P - Q.
#[verifier::external_body]
pub(crate) fn psub(p: &Point, q: &Point) -> (r: Point)
    ensures
        r@ == psub_of(p@, q@),
{
    let a = curve25519_dalek::ristretto::CompressedRistretto(p.bytes)
        .decompress()
        .expect("canonical encoding");
    let b = curve25519_dalek::ristretto::CompressedRistretto(q.bytes)
        .decompress()
        .expect("canonical encoding");
    Point { bytes: (a - b).compress().to_bytes() }
}

/// Relies on curve25519_dalek::ristretto::RistrettoPoint::hash_from_bytes
/// with the Sha3_512 digest: hashing a byte string to a group element.
#[verifier::external_body]
pub(crate) fn hash_to_point(b: &Vec<u8>) -> (r: Point)
    ensures
        r@ == hash_point_of(b@),
{
    let p = curve25519_dalek::ristretto::RistrettoPoint::hash_from_bytes::<sha3::Sha3_512>(
        b.as_slice(),
    );
    Point { bytes: p.compress().to_bytes() }
}

/// Relies on curve25519_dalek::constants::RISTRETTO_BASEPOINT_COMPRESSED:
/// the basepoint's canonical encoding, the bytes of `g1_enc`.
#[verifier::external_body]
pub fn basepoint_g1() -> (r: Point)
    ensures
        r@ == g1_enc(),
{
    Point { bytes: curve25519_dalek::constants::RISTRETTO_BASEPOINT_COMPRESSED.to_bytes() }
}

/// The second Pedersen generator, obtained by hashing the basepoint's
/// encoding to the curve.
pub fn basepoint_g2() -> (r: Point)
    ensures
        r@ == g2_enc(),
{
    let g1 = basepoint_g1();
    let b = point_to_bytes(&g1);
    hash_to_point(&b)
}

/// Relies on curve25519_dalek::traits::Identity for CompressedRistretto:
/// the group identity encodes as 32 zero bytes.
#[verifier::external_body]
pub(crate) fn identity_point() -> (r: Point)
    ensures
        r@ == identity_enc(),
{
    Point { bytes: [0u8; 32] }
}

} // verus!
