//! Points of the two BLS12-381 source groups and scalars of its field, held
//! in their canonical compressed encodings, and the pointwise operations the
//! ceremony performs on them.

use vstd::prelude::*;
use bls12_381::hash_to_curve::{ExpandMsgXmd, HashToCurve};
use bls12_381::{G1Affine, G2Affine};

verus! {

/// A G1 point in its 48-byte compressed encoding.
#[derive(Clone, Copy, Debug)]
pub struct G1(pub [u8; 48]);

/// A G2 point in its 96-byte compressed encoding.
#[derive(Clone, Copy, Debug)]
pub struct G2(pub [u8; 96]);

/// A scalar in its 32-byte little-endian encoding.
#[derive(Clone, Copy, Debug)]
pub struct F(pub [u8; 32]);

/// The secret scalar a contributor mixes into the powers.
pub type Tau = F;

/// Byte-wise equality of two encodings.
fn bytes_eq(a: &[u8], b: &[u8]) -> (r: bool)
    ensures
        r == (a@ == b@),
{
    if a.len() != b.len() {
        return false;
    }
    let mut i: usize = 0;
    while i < a.len()
        invariant
            i <= a.len(),
            a.len() == b.len(),
            forall|j: int| 0 <= j < i ==> a@[j] == b@[j],
        decreases a.len() - i,
    {
        if a[i] != b[i] {
            return false;
        }
        i += 1;
    }
    assert(a@ =~= b@);
    true
}

impl PartialEq for G1 {
    fn eq(&self, o: &G1) -> (r: bool) {
        bytes_eq(&self.0, &o.0)
    }
}

impl vstd::std_specs::cmp::PartialEqSpecImpl for G1 {
    open spec fn obeys_eq_spec() -> bool {
        true
    }

    open spec fn eq_spec(&self, o: &G1) -> bool {
        self.0@ == o.0@
    }
}

impl Eq for G1 {}

impl PartialEq for G2 {
    fn eq(&self, o: &G2) -> (r: bool) {
        bytes_eq(&self.0, &o.0)
    }
}

impl vstd::std_specs::cmp::PartialEqSpecImpl for G2 {
    open spec fn obeys_eq_spec() -> bool {
        true
    }

    open spec fn eq_spec(&self, o: &G2) -> bool {
        self.0@ == o.0@
    }
}

impl Eq for G2 {}

impl PartialEq for F {
    fn eq(&self, o: &F) -> (r: bool) {
        bytes_eq(&self.0, &o.0)
    }
}

impl vstd::std_specs::cmp::PartialEqSpecImpl for F {
    open spec fn obeys_eq_spec() -> bool {
        true
    }

    open spec fn eq_spec(&self, o: &F) -> bool {
        self.0@ == o.0@
    }
}

impl Eq for F {}

/// Why a point was refused.
#[derive(Clone, Copy, PartialEq, Eq, Structural, Debug)]
pub enum CurveError {
    /// The compression flag is not set.
    BadEncoding,
    /// The bytes do not name a point of the curve.
    NotOnCurve,
    /// The point lies outside the prime-order subgroup.
    NotInSubgroup,
}

#[derive(Clone, Copy, PartialEq, Eq, Structural, Debug)]
pub enum CeremonyError {
    InvalidG1Power(usize, CurveError),
    InvalidG2Power(usize, CurveError),
    /// The powers differ in size from the transcript's, or do not form a
    /// sequence of powers of one secret.
    PowersMismatch,
    /// The public key does not match the powers, or does not extend the
    /// transcript's public key by the same factor as the powers.
    BadPubkey,
    /// The signature is absent or was not made with the contributed secret.
    BadBlsSignature,
    /// The batch does not hold one contribution per sub-ceremony.
    UnexpectedNumContributions,
}

/// The compressed bytes decode to a point of the curve (subgroup not checked).
pub uninterp spec fn g1_on_curve(b: Seq<u8>) -> bool;

/// The compressed bytes decode to a point of the prime-order subgroup.
pub uninterp spec fn g1_valid(b: Seq<u8>) -> bool;

pub uninterp spec fn g2_on_curve(b: Seq<u8>) -> bool;

pub uninterp spec fn g2_valid(b: Seq<u8>) -> bool;

/// The bytes are the canonical encoding of a scalar.
pub uninterp spec fn scalar_ok(b: Seq<u8>) -> bool;

/// Product of two scalars.
pub uninterp spec fn fr_mul(a: Seq<u8>, b: Seq<u8>) -> Seq<u8>;

/// The scalar that 64 bytes of entropy reduce to.
pub uninterp spec fn fr_from_wide(b: Seq<u8>) -> Seq<u8>;

/// `k · p` for a G1 point `p`.
pub uninterp spec fn g1_mul(p: Seq<u8>, k: Seq<u8>) -> Seq<u8>;

/// `k · p` for a G2 point `p`.
pub uninterp spec fn g2_mul(p: Seq<u8>, k: Seq<u8>) -> Seq<u8>;

/// The G1 point that a message hashes to under the signature tag.
pub uninterp spec fn hash_g1(msg: Seq<u8>) -> Seq<u8>;

/// `e(a, b) == e(c, d)`, all four points decoding into their subgroups.
pub uninterp spec fn pairings_equal(a: Seq<u8>, b: Seq<u8>, c: Seq<u8>, d: Seq<u8>) -> bool;

/// Relies on `G1Affine::from_compressed_unchecked`: whether the bytes decode
/// to a curve point.
#[verifier::external_body]
fn g1_decodes(b: &[u8; 48]) -> (r: bool)
    ensures
        r == g1_on_curve(b@),
{
    bool::from(bls12_381::G1Affine::from_compressed_unchecked(b).is_some())
}

/// Relies on `G1Affine::from_compressed`: whether the bytes decode to a point
/// of the subgroup, which is an unchecked decoding followed by a subgroup test.
#[verifier::external_body]
fn g1_decodes_checked(b: &[u8; 48]) -> (r: bool)
    ensures
        r == g1_valid(b@),
        r ==> g1_on_curve(b@),
{
    bool::from(bls12_381::G1Affine::from_compressed(b).is_some())
}

/// Relies on `G2Affine::from_compressed_unchecked`.
#[verifier::external_body]
fn g2_decodes(b: &[u8; 96]) -> (r: bool)
    ensures
        r == g2_on_curve(b@),
{
    bool::from(bls12_381::G2Affine::from_compressed_unchecked(b).is_some())
}

/// Relies on `G2Affine::from_compressed`.
#[verifier::external_body]
fn g2_decodes_checked(b: &[u8; 96]) -> (r: bool)
    ensures
        r == g2_valid(b@),
        r ==> g2_on_curve(b@),
{
    bool::from(bls12_381::G2Affine::from_compressed(b).is_some())
}

/// Relies on `Scalar::from_bytes`: whether the bytes are a canonical scalar.
#[verifier::external_body]
fn scalar_decodes(b: &[u8; 32]) -> (r: bool)
    ensures
        r == scalar_ok(b@),
{
    bool::from(bls12_381::Scalar::from_bytes(b).is_some())
}

/// Relies on `Scalar::one`: its canonical encoding.
#[verifier::external_body]
fn scalar_one() -> (r: [u8; 32])
    ensures
        scalar_ok(r@),
        r@ == F::one_bytes(),
{
    bls12_381::Scalar::one().to_bytes()
}

/// Relies on `Scalar` multiplication; `to_bytes` gives a canonical encoding.
#[verifier::external_body]
fn scalar_mul(a: &[u8; 32], b: &[u8; 32]) -> (r: [u8; 32])
    requires
        scalar_ok(a@),
        scalar_ok(b@),
    ensures
        r@ == fr_mul(a@, b@),
        scalar_ok(r@),
{
    let a = bls12_381::Scalar::from_bytes(a).unwrap();
    let b = bls12_381::Scalar::from_bytes(b).unwrap();
    (a * b).to_bytes()
}

/// Relies on `Scalar::from_bytes_wide`: reduction of 64 bytes modulo the
/// group order, encoded canonically.
#[verifier::external_body]
fn scalar_from_wide(b: &[u8; 64]) -> (r: [u8; 32])
    ensures
        r@ == fr_from_wide(b@),
        scalar_ok(r@),
{
    bls12_381::Scalar::from_bytes_wide(b).to_bytes()
}

/// Relies on G1 scalar multiplication: decodes (curve check only), multiplies
/// and re-encodes; `None` when the bytes do not decode.
#[verifier::external_body]
fn g1_scale(p: &[u8; 48], k: &[u8; 32]) -> (r: Option<[u8; 48]>)
    requires
        scalar_ok(k@),
    ensures
        r is Some <==> g1_on_curve(p@),
        r is Some ==> r->Some_0@ == g1_mul(p@, k@),
{
    let k = bls12_381::Scalar::from_bytes(k).unwrap();
    match Option::<bls12_381::G1Affine>::from(bls12_381::G1Affine::from_compressed_unchecked(p)) {
        Some(q) => Some(bls12_381::G1Affine::from(q * k).to_compressed()),
        None => None,
    }
}

/// Relies on G2 scalar multiplication, as for G1.
#[verifier::external_body]
fn g2_scale(p: &[u8; 96], k: &[u8; 32]) -> (r: Option<[u8; 96]>)
    requires
        scalar_ok(k@),
    ensures
        r is Some <==> g2_on_curve(p@),
        r is Some ==> r->Some_0@ == g2_mul(p@, k@),
{
    let k = bls12_381::Scalar::from_bytes(k).unwrap();
    match Option::<bls12_381::G2Affine>::from(bls12_381::G2Affine::from_compressed_unchecked(p)) {
        Some(q) => Some(bls12_381::G2Affine::from(q * k).to_compressed()),
        None => None,
    }
}

/// Relies on `HashToCurve::hash_to_curve` for G1 with `expand_message_xmd`
/// over SHA-256 and the proof-of-possession signature tag; the result is a
/// curve point, so its encoding decodes.
#[verifier::external_body]
fn hash_to_g1(msg: &[u8]) -> (r: [u8; 48])
    ensures
        r@ == hash_g1(msg@),
        g1_on_curve(r@),
{
    let dst: &[u8] = b"BLS_SIG_BLS12381G1_XMD:SHA-256_SSWU_RO_POP_";
    let p = <bls12_381::G1Projective as HashToCurve<ExpandMsgXmd<sha2::Sha256>>>::hash_to_curve(
        msg,
        dst,
    );
    bls12_381::G1Affine::from(p).to_compressed()
}

/// Relies on `bls12_381::pairing`: `e(a, b) == e(c, d)`; false when a point
/// does not decode into its subgroup.
#[verifier::external_body]
fn pairing_check(a: &[u8; 48], b: &[u8; 96], c: &[u8; 48], d: &[u8; 96]) -> (r: bool)
    ensures
        r == pairings_equal(a@, b@, c@, d@),
{
    let a = Option::<G1Affine>::from(G1Affine::from_compressed(a));
    let b = Option::<G2Affine>::from(G2Affine::from_compressed(b));
    let c = Option::<G1Affine>::from(G1Affine::from_compressed(c));
    let d = Option::<G2Affine>::from(G2Affine::from_compressed(d));
    match (a, b, c, d) {
        (Some(a), Some(b), Some(c), Some(d)) => bls12_381::pairing(&a, &b) == bls12_381::pairing(&c, &d),
        _ => false,
    }
}

impl G1 {
    pub open spec fn one_bytes() -> Seq<u8> {
        seq![
            0x97u8, 0xf1, 0xd3, 0xa7, 0x31, 0x97, 0xd7, 0x94, 0x26, 0x95, 0x63, 0x8c, 0x4f, 0xa9,
            0xac, 0x0f, 0xc3, 0x68, 0x8c, 0x4f, 0x97, 0x74, 0xb9, 0x05, 0xa1, 0x4e, 0x3a, 0x3f,
            0x17, 0x1b, 0xac, 0x58, 0x6c, 0x55, 0xe8, 0x3f, 0xf9, 0x7a, 0x1a, 0xef, 0xfb, 0x3a,
            0xf0, 0x0a, 0xdb, 0x22, 0xc6, 0xbb,
        ]
    }

    /// The standard generator of G1.
    pub fn one() -> (r: G1)
        ensures
            r.0@ == G1::one_bytes(),
    {
        let r = G1(
            [
                0x97u8, 0xf1, 0xd3, 0xa7, 0x31, 0x97, 0xd7, 0x94, 0x26, 0x95, 0x63, 0x8c, 0x4f,
                0xa9, 0xac, 0x0f, 0xc3, 0x68, 0x8c, 0x4f, 0x97, 0x74, 0xb9, 0x05, 0xa1, 0x4e,
                0x3a, 0x3f, 0x17, 0x1b, 0xac, 0x58, 0x6c, 0x55, 0xe8, 0x3f, 0xf9, 0x7a, 0x1a,
                0xef, 0xfb, 0x3a, 0xf0, 0x0a, 0xdb, 0x22, 0xc6, 0xbb,
            ],
        );
        assert(r.0@ =~= G1::one_bytes());
        r
    }
}

impl G2 {
    pub open spec fn one_bytes() -> Seq<u8> {
        seq![
            0x93u8, 0xe0, 0x2b, 0x60, 0x52, 0x71, 0x9f, 0x60, 0x7d, 0xac, 0xd3, 0xa0, 0x88, 0x27,
            0x4f, 0x65, 0x59, 0x6b, 0xd0, 0xd0, 0x99, 0x20, 0xb6, 0x1a, 0xb5, 0xda, 0x61, 0xbb,
            0xdc, 0x7f, 0x50, 0x49, 0x33, 0x4c, 0xf1, 0x12, 0x13, 0x94, 0x5d, 0x57, 0xe5, 0xac,
            0x7d, 0x05, 0x5d, 0x04, 0x2b, 0x7e, 0x02, 0x4a, 0xa2, 0xb2, 0xf0, 0x8f, 0x0a, 0x91,
            0x26, 0x08, 0x05, 0x27, 0x2d, 0xc5, 0x10, 0x51, 0xc6, 0xe4, 0x7a, 0xd4, 0xfa, 0x40,
            0x3b, 0x02, 0xb4, 0x51, 0x0b, 0x64, 0x7a, 0xe3, 0xd1, 0x77, 0x0b, 0xac, 0x03, 0x26,
            0xa8, 0x05, 0xbb, 0xef, 0xd4, 0x80, 0x56, 0xc8, 0xc1, 0x21, 0xbd, 0xb8,
        ]
    }

    /// The standard generator of G2.
    pub fn one() -> (r: G2)
        ensures
            r.0@ == G2::one_bytes(),
    {
        let r = G2(
            [
                0x93u8, 0xe0, 0x2b, 0x60, 0x52, 0x71, 0x9f, 0x60, 0x7d, 0xac, 0xd3, 0xa0, 0x88,
                0x27, 0x4f, 0x65, 0x59, 0x6b, 0xd0, 0xd0, 0x99, 0x20, 0xb6, 0x1a, 0xb5, 0xda,
                0x61, 0xbb, 0xdc, 0x7f, 0x50, 0x49, 0x33, 0x4c, 0xf1, 0x12, 0x13, 0x94, 0x5d,
                0x57, 0xe5, 0xac, 0x7d, 0x05, 0x5d, 0x04, 0x2b, 0x7e, 0x02, 0x4a, 0xa2, 0xb2,
                0xf0, 0x8f, 0x0a, 0x91, 0x26, 0x08, 0x05, 0x27, 0x2d, 0xc5, 0x10, 0x51, 0xc6,
                0xe4, 0x7a, 0xd4, 0xfa, 0x40, 0x3b, 0x02, 0xb4, 0x51, 0x0b, 0x64, 0x7a, 0xe3,
                0xd1, 0x77, 0x0b, 0xac, 0x03, 0x26, 0xa8, 0x05, 0xbb, 0xef, 0xd4, 0x80, 0x56,
                0xc8, 0xc1, 0x21, 0xbd, 0xb8,
            ],
        );
        assert(r.0@ =~= G2::one_bytes());
        r
    }
}

impl F {
    pub open spec fn one_bytes() -> Seq<u8> {
        seq![1u8].add(Seq::new(31, |i: int| 0u8))
    }

    pub open spec fn is_valid(&self) -> bool {
        scalar_ok(self.0@)
    }

    /// The scalar one.
    pub fn one() -> (r: F)
        ensures
            r.is_valid(),
            r.0@ == F::one_bytes(),
    {
        F(scalar_one())
    }

    /// The scalar whose canonical encoding these bytes are, if they are one.
    pub fn from_bytes(b: [u8; 32]) -> (r: Option<F>)
        ensures
            r is Some <==> scalar_ok(b@),
            r is Some ==> r->Some_0.0 == b,
    {
        if scalar_decodes(&b) {
            Some(F(b))
        } else {
            None
        }
    }

    /// Derives a scalar from 64 bytes of entropy by reduction modulo the group order.
    pub fn generate_tau(entropy: &[u8; 64]) -> (r: Tau)
        ensures
            r.is_valid(),
            r.0@ == fr_from_wide(entropy@),
    {
        F(scalar_from_wide(entropy))
    }

    /// Product of two scalars.
    pub fn mul(&self, other: &F) -> (r: F)
        requires
            self.is_valid(),
            other.is_valid(),
        ensures
            r.is_valid(),
            r.0@ == fr_mul(self.0@, other.0@),
    {
        F(scalar_mul(&self.0, &other.0))
    }
}

/// `tau^i`, by successive multiplication starting from one.
pub open spec fn fr_pow(tau: Seq<u8>, i: nat) -> Seq<u8>
    decreases i,
{
    if i == 0 {
        F::one_bytes()
    } else {
        fr_mul(fr_pow(tau, (i - 1) as nat), tau)
    }
}

/// Why a G1 encoding is refused, for one that is refused.
pub open spec fn g1_reason(b: Seq<u8>) -> CurveError {
    if b[0] < 0x80 {
        CurveError::BadEncoding
    } else if !g1_on_curve(b) {
        CurveError::NotOnCurve
    } else {
        CurveError::NotInSubgroup
    }
}

pub open spec fn g2_reason(b: Seq<u8>) -> CurveError {
    if b[0] < 0x80 {
        CurveError::BadEncoding
    } else if !g2_on_curve(b) {
        CurveError::NotOnCurve
    } else {
        CurveError::NotInSubgroup
    }
}

/// The outcome of checking G1 points in order: the first refused one, if any.
pub open spec fn validate_g1_spec(pts: Seq<G1>) -> Result<(), CeremonyError> {
    if forall|i: int| 0 <= i < pts.len() ==> g1_valid(#[trigger] pts[i].0@) {
        Ok(())
    } else {
        let i = choose|i: int|
            0 <= i < pts.len() && !g1_valid(pts[i].0@) && forall|j: int|
                0 <= j < i ==> g1_valid(#[trigger] pts[j].0@);
        Err(CeremonyError::InvalidG1Power(i as usize, g1_reason(pts[i].0@)))
    }
}

pub open spec fn validate_g2_spec(pts: Seq<G2>) -> Result<(), CeremonyError> {
    if forall|i: int| 0 <= i < pts.len() ==> g2_valid(#[trigger] pts[i].0@) {
        Ok(())
    } else {
        let i = choose|i: int|
            0 <= i < pts.len() && !g2_valid(pts[i].0@) && forall|j: int|
                0 <= j < i ==> g2_valid(#[trigger] pts[j].0@);
        Err(CeremonyError::InvalidG2Power(i as usize, g2_reason(pts[i].0@)))
    }
}

/// Checks that every point decodes into the prime-order subgroup.
pub fn validate_g1(pts: &[G1]) -> (r: Result<(), CeremonyError>)
    ensures
        r == validate_g1_spec(pts@),
{
    let mut i: usize = 0;
    while i < pts.len()
        invariant
            i <= pts.len(),
            forall|j: int| 0 <= j < i ==> g1_valid(#[trigger] pts@[j].0@),
        decreases pts.len() - i,
    {
        if !g1_decodes_checked(&pts[i].0) {
            let reason = if pts[i].0[0] < 0x80 {
                CurveError::BadEncoding
            } else if !g1_decodes(&pts[i].0) {
                CurveError::NotOnCurve
            } else {
                CurveError::NotInSubgroup
            };
            let ghost k = choose|k: int|
                0 <= k < pts@.len() && !g1_valid(pts@[k].0@) && forall|j: int|
                    0 <= j < k ==> g1_valid(#[trigger] pts@[j].0@);
            assert(k == i) by {
                if k < i {
                    assert(g1_valid(pts@[k].0@));
                } else if k > i {
                    assert(g1_valid(pts@[i as int].0@));
                }
            }
            return Err(CeremonyError::InvalidG1Power(i, reason));
        }
        i += 1;
    }
    Ok(())
}

/// Checks that every point decodes into the prime-order subgroup.
pub fn validate_g2(pts: &[G2]) -> (r: Result<(), CeremonyError>)
    ensures
        r == validate_g2_spec(pts@),
{
    let mut i: usize = 0;
    while i < pts.len()
        invariant
            i <= pts.len(),
            forall|j: int| 0 <= j < i ==> g2_valid(#[trigger] pts@[j].0@),
        decreases pts.len() - i,
    {
        if !g2_decodes_checked(&pts[i].0) {
            let reason = if pts[i].0[0] < 0x80 {
                CurveError::BadEncoding
            } else if !g2_decodes(&pts[i].0) {
                CurveError::NotOnCurve
            } else {
                CurveError::NotInSubgroup
            };
            let ghost k = choose|k: int|
                0 <= k < pts@.len() && !g2_valid(pts@[k].0@) && forall|j: int|
                    0 <= j < k ==> g2_valid(#[trigger] pts@[j].0@);
            assert(k == i) by {
                if k < i {
                    assert(g2_valid(pts@[k].0@));
                } else if k > i {
                    assert(g2_valid(pts@[i as int].0@));
                }
            }
            return Err(CeremonyError::InvalidG2Power(i, reason));
        }
        i += 1;
    }
    Ok(())
}

/// Every point decodes to a point of the curve.
pub open spec fn all_g1_on_curve(pts: Seq<G1>) -> bool {
    forall|i: int| 0 <= i < pts.len() ==> g1_on_curve(#[trigger] pts[i].0@)
}

pub open spec fn all_g2_on_curve(pts: Seq<G2>) -> bool {
    forall|i: int| 0 <= i < pts.len() ==> g2_on_curve(#[trigger] pts[i].0@)
}

/// `out[i] = tau^i · pts[i]` for every index.
pub open spec fn g1_powers_of(out: Seq<G1>, pts: Seq<G1>, tau: Seq<u8>) -> bool {
    out.len() == pts.len() && forall|i: int|
        0 <= i < pts.len() ==> #[trigger] out[i].0@ == g1_mul(pts[i].0@, fr_pow(tau, i as nat))
}

pub open spec fn g2_powers_of(out: Seq<G2>, pts: Seq<G2>, tau: Seq<u8>) -> bool {
    out.len() == pts.len() && forall|i: int|
        0 <= i < pts.len() ==> #[trigger] out[i].0@ == g2_mul(pts[i].0@, fr_pow(tau, i as nat))
}

/// `tau^i · pts[i]` for every index, the powers of `tau` taken by successive
/// multiplication; refused when a point does not decode.
pub fn g1_times_powers(tau: &Tau, pts: &[G1]) -> (r: Result<Vec<G1>, CeremonyError>)
    requires
        tau.is_valid(),
    ensures
        r is Ok <==> all_g1_on_curve(pts@),
        r is Ok ==> g1_powers_of(r->Ok_0@, pts@, tau.0@),
        r matches Err(CeremonyError::InvalidG1Power(i, reason)) ==> i < pts@.len() && !g1_on_curve(pts@[i as int].0@) && reason == CurveError::NotOnCurve,
{
    let mut out: Vec<G1> = Vec::new();
    let mut p = F::one();
    let mut i: usize = 0;
    while i < pts.len()
        invariant
            i <= pts.len(),
            tau.is_valid(),
            p.is_valid(),
            p.0@ == fr_pow(tau.0@, i as nat),
            out@.len() == i,
            forall|j: int| 0 <= j < i ==> g1_on_curve(#[trigger] pts@[j].0@),
            forall|j: int| 0 <= j < i ==> #[trigger] out@[j].0@ == g1_mul(pts@[j].0@, fr_pow(tau.0@, j as nat)),
        decreases pts.len() - i,
    {
        let ghost prev = out@;
        match g1_scale(&pts[i].0, &p.0) {
            Some(b) => {
                out.push(G1(b));
                assert forall|j: int| 0 <= j <= i implies #[trigger] out@[j].0@ == g1_mul(
                    pts@[j].0@,
                    fr_pow(tau.0@, j as nat),
                ) by {
                    if j < i {
                        assert(out@[j] == prev[j]);
                        assert(prev[j].0@ == g1_mul(pts@[j].0@, fr_pow(tau.0@, j as nat)));
                    }
                }
            },
            None => {
                return Err(CeremonyError::InvalidG1Power(i, CurveError::NotOnCurve));
            },
        }
        p = p.mul(tau);
        i += 1;
    }
    Ok(out)
}

pub fn g2_times_powers(tau: &Tau, pts: &[G2]) -> (r: Result<Vec<G2>, CeremonyError>)
    requires
        tau.is_valid(),
    ensures
        r is Ok <==> all_g2_on_curve(pts@),
        r is Ok ==> g2_powers_of(r->Ok_0@, pts@, tau.0@),
        r matches Err(CeremonyError::InvalidG2Power(i, reason)) ==> i < pts@.len() && !g2_on_curve(pts@[i as int].0@) && reason == CurveError::NotOnCurve,
{
    let mut out: Vec<G2> = Vec::new();
    let mut p = F::one();
    let mut i: usize = 0;
    while i < pts.len()
        invariant
            i <= pts.len(),
            tau.is_valid(),
            p.is_valid(),
            p.0@ == fr_pow(tau.0@, i as nat),
            out@.len() == i,
            forall|j: int| 0 <= j < i ==> g2_on_curve(#[trigger] pts@[j].0@),
            forall|j: int| 0 <= j < i ==> #[trigger] out@[j].0@ == g2_mul(pts@[j].0@, fr_pow(tau.0@, j as nat)),
        decreases pts.len() - i,
    {
        let ghost prev = out@;
        match g2_scale(&pts[i].0, &p.0) {
            Some(b) => {
                out.push(G2(b));
                assert forall|j: int| 0 <= j <= i implies #[trigger] out@[j].0@ == g2_mul(
                    pts@[j].0@,
                    fr_pow(tau.0@, j as nat),
                ) by {
                    if j < i {
                        assert(out@[j] == prev[j]);
                        assert(prev[j].0@ == g2_mul(pts@[j].0@, fr_pow(tau.0@, j as nat)));
                    }
                }
            },
            None => {
                return Err(CeremonyError::InvalidG2Power(i, CurveError::NotOnCurve));
            },
        }
        p = p.mul(tau);
        i += 1;
    }
    Ok(out)
}

/// In place: `pts[i] <- tau^i · pts[i]`; left as it was when a point does not decode.
pub fn add_tau_g1(tau: &Tau, pts: &mut Vec<G1>) -> (r: Result<(), CeremonyError>)
    requires
        tau.is_valid(),
    ensures
        r is Ok <==> all_g1_on_curve(old(pts)@),
        r is Ok ==> g1_powers_of(final(pts)@, old(pts)@, tau.0@),
        r is Err ==> final(pts)@ == old(pts)@,
{
    match g1_times_powers(tau, pts.as_slice()) {
        Ok(v) => {
            *pts = v;
            Ok(())
        },
        Err(e) => Err(e),
    }
}

/// In place: `pts[i] <- tau^i · pts[i]`; left as it was when a point does not decode.
pub fn add_tau_g2(tau: &Tau, pts: &mut Vec<G2>) -> (r: Result<(), CeremonyError>)
    requires
        tau.is_valid(),
    ensures
        r is Ok <==> all_g2_on_curve(old(pts)@),
        r is Ok ==> g2_powers_of(final(pts)@, old(pts)@, tau.0@),
        r is Err ==> final(pts)@ == old(pts)@,
{
    match g2_times_powers(tau, pts.as_slice()) {
        Ok(v) => {
            *pts = v;
            Ok(())
        },
        Err(e) => Err(e),
    }
}

/// `tau · p` for one G2 point; `None` when it does not decode.
pub fn g2_times(tau: &Tau, p: &G2) -> (r: Option<G2>)
    requires
        tau.is_valid(),
    ensures
        r is Some <==> g2_on_curve(p.0@),
        r is Some ==> r->Some_0.0@ == g2_mul(p.0@, tau.0@),
{
    match g2_scale(&p.0, &tau.0) {
        Some(b) => Some(G2(b)),
        None => None,
    }
}

/// `k · p` for one G1 point; `None` when it does not decode.
pub fn g1_times(k: &F, p: &G1) -> (r: Option<G1>)
    requires
        k.is_valid(),
    ensures
        r is Some <==> g1_on_curve(p.0@),
        r is Some ==> r->Some_0.0@ == g1_mul(p.0@, k.0@),
{
    match g1_scale(&p.0, &k.0) {
        Some(b) => Some(G1(b)),
        None => None,
    }
}

/// The G1 point a message hashes to.
pub fn hash_to_curve_g1(msg: &[u8]) -> (r: G1)
    ensures
        r.0@ == hash_g1(msg@),
        g1_on_curve(r.0@),
{
    G1(hash_to_g1(msg))
}

/// Whether `e(a, b) == e(c, d)`.
pub fn pairings_match(a: &G1, b: &G2, c: &G1, d: &G2) -> (r: bool)
    ensures
        r == pairings_equal(a.0@, b.0@, c.0@, d.0@),
{
    pairing_check(&a.0, &b.0, &c.0, &d.0)
}

} // verus!
