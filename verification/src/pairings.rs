//! The algebra layer: the BLS12-381 group pair (G1, G2), its target group
//! (GT), and its scalar field, wrapped behind value types of this crate.
//!
//! Every element is specified by its discrete logarithm: a `G1Element` or
//! `G2Element` by the logarithm to the fixed generator of its group, a
//! `GTElement` by the logarithm to `pair(generator, generator)`, each an
//! integer in `[0, group_order())`. Under this view, scalar multiplication
//! multiplies the logarithm modulo the group order, and the bilinear pairing
//! multiplies the two logarithms modulo the group order; those are the only
//! algebraic facts the layers above rely on. The curve arithmetic itself is
//! performed by the miracl_core crate behind the functions marked
//! `external_body` below, each of which documents the call it relies on.
use vstd::prelude::*;
use miracl_core::bls12381::big::BIG;
use miracl_core::bls12381::dbig::DBIG;
use miracl_core::bls12381::ecp::ECP;
use miracl_core::bls12381::ecp2::ECP2;
use miracl_core::bls12381::fp12::FP12;
use miracl_core::bls12381::{ecp, pair, rom};
use miracl_core::hmac;
use miracl_core::rand::{RAND, RAND_impl};
use crate::bytes::{be_bytes_of, be_val};
use crate::Error;

verus! {

/// Length of the byte encoding of a G1 element: one tag byte, the 48-byte
/// x-coordinate, and zero padding to the historical record size.
pub const G1_BYTES: usize = 58;

/// Length of the byte encoding of a G2 element: one tag byte and the
/// 96-byte x-coordinate (a quadratic-extension field element).
pub const G2_BYTES: usize = 97;

/// Length of the byte encoding of a GT element: twelve 48-byte field
/// coordinates.
pub const GT_BYTES: usize = 576;

/// Length of the byte encoding of a scalar: the field's byte length.
pub const SCALAR_BYTES: usize = 48;

/// The prime order of G1, G2, GT and of the scalar field
/// (the BLS12-381 value of `rom::CURVE_ORDER`, a 255-bit prime).
pub open spec fn group_order() -> int {
    0x73eda753299d7d483339d80809a1d80553bda402fffe5bfeffffffff00000001int
}

/// `raw`, padded with zero bytes or truncated to exactly `n` bytes.
pub open spec fn bytes_fixed(raw: Seq<u8>, n: nat) -> Seq<u8> {
    Seq::new(n, |i: int| if i < raw.len() { raw[i] } else { 0 })
}

/// The discrete logarithm of the G1 point that hashing these bytes onto the
/// curve yields (what `ECP::mapit` computes).
pub uninterp spec fn g1_hash_raw(input: Seq<u8>) -> int;

/// The discrete logarithm of the G2 point that hashing these bytes onto the
/// curve yields (what `ECP2::mapit` computes).
pub uninterp spec fn g2_hash_raw(input: Seq<u8>) -> int;

/// The byte encoding of the G1 element with discrete logarithm `x`.
pub uninterp spec fn g1_bytes_raw(x: int) -> Seq<u8>;

/// The byte encoding of the G2 element with discrete logarithm `x`.
pub uninterp spec fn g2_bytes_raw(x: int) -> Seq<u8>;

/// The byte encoding of the GT element with discrete logarithm `x`.
pub uninterp spec fn gt_bytes_raw(x: int) -> Seq<u8>;

/// The 32 bytes that miracl's deterministic generator, seeded with `seed`,
/// yields as input keying material.
pub uninterp spec fn seed_ikm_raw(seed: Seq<u8>) -> Seq<u8>;

/// The `olen`-byte output of HKDF-SHA-256 under this crate's fixed
/// domain-separation salt on input keying material `ikm`.
pub uninterp spec fn hkdf_raw(ikm: Seq<u8>, olen: nat) -> Seq<u8>;

/// As `g1_hash_raw`, normalised into the range a group element's view has.
pub open spec fn g1_hash_of(input: Seq<u8>) -> int {
    g1_hash_raw(input) % group_order()
}

/// As `g2_hash_raw`, normalised into the range a group element's view has.
pub open spec fn g2_hash_of(input: Seq<u8>) -> int {
    g2_hash_raw(input) % group_order()
}

/// The canonical `G1_BYTES`-byte encoding of the G1 element with view `x`.
pub open spec fn g1_bytes_of(x: int) -> Seq<u8> {
    bytes_fixed(g1_bytes_raw(x), G1_BYTES as nat)
}

/// The canonical `G2_BYTES`-byte encoding of the G2 element with view `x`.
pub open spec fn g2_bytes_of(x: int) -> Seq<u8> {
    bytes_fixed(g2_bytes_raw(x), G2_BYTES as nat)
}

/// The canonical `GT_BYTES`-byte encoding of the GT element with view `x`.
pub open spec fn gt_bytes_of(x: int) -> Seq<u8> {
    bytes_fixed(gt_bytes_raw(x), GT_BYTES as nat)
}

/// The field element deterministically derived from a seed: 48 bytes of
/// HKDF output on the seed's keying material, read big-endian and reduced
/// modulo the group order.
pub open spec fn scalar_of_seed(seed: Seq<u8>) -> int {
    be_val(hkdf_raw(seed_ikm_raw(seed), 48)) % group_order()
}

/// The view of the product of a group element (view `p`) and a scalar
/// (view `s`): the logarithm is multiplied modulo the group order.
pub open spec fn elem_mul_of(p: int, s: int) -> int {
    (p * s) % group_order()
}

/// The view of the pairing of elements with views `a` (in G1) and `b`
/// (in G2): referenced to `pair(generator, generator)`, the bilinear map
/// multiplies the two logarithms modulo the group order.
pub open spec fn pairing_of(a: int, b: int) -> int {
    (a * b) % group_order()
}

/// The view of a GT element (view `g`) raised to a scalar (view `e`).
pub open spec fn gt_pow_of(g: int, e: int) -> int {
    (g * e) % group_order()
}

#[verifier::external_type_specification]
#[verifier::external_body]
pub struct ExBig(BIG);

#[verifier::external_type_specification]
#[verifier::external_body]
pub struct ExEcp(ECP);

#[verifier::external_type_specification]
#[verifier::external_body]
pub struct ExEcp2(ECP2);

#[verifier::external_type_specification]
#[verifier::external_body]
pub struct ExFp12(FP12);

/// An element of the first source group, immutable once constructed.
pub struct G1Element {
    point: ECP,
    v: Ghost<int>,
}

/// An element of the second source group, immutable once constructed.
pub struct G2Element {
    point: ECP2,
    v: Ghost<int>,
}

/// An element of the target group, immutable once constructed.
pub struct GTElement {
    elem: FP12,
    v: Ghost<int>,
}

/// An element of the scalar field, immutable once constructed.
pub struct Scalar {
    big: BIG,
    v: Ghost<int>,
}

impl View for G1Element {
    type V = int;

    closed spec fn view(&self) -> int {
        self.v@
    }
}

impl View for G2Element {
    type V = int;

    closed spec fn view(&self) -> int {
        self.v@
    }
}

impl View for GTElement {
    type V = int;

    closed spec fn view(&self) -> int {
        self.v@
    }
}

impl View for Scalar {
    type V = int;

    closed spec fn view(&self) -> int {
        self.v@
    }
}

impl G1Element {
    /// A well-formed element's view is a discrete logarithm.
    pub open spec fn wf(&self) -> bool {
        0 <= self@ < group_order()
    }

    /// Relies on `ECP::generator`: the standardized base point of G1. It is
    /// the reference point of the discrete-logarithm view, so its view is 1.
    #[verifier::external_body]
    pub fn generator() -> (r: Self)
        ensures
            r@ == 1,
    {
        G1Element { point: ECP::generator(), v: Ghost(arbitrary()) }
    }

    /// Relies on `ECP::mapit`: a deterministic map from arbitrary bytes onto
    /// the prime-order subgroup of G1 (the cofactor is cleared), here named
    /// `g1_hash_raw`.
    #[verifier::external_body]
    pub fn hash_to_curve(input: &[u8]) -> (r: Self)
        ensures
            r@ == g1_hash_raw(input@),
            r@ == g1_hash_of(input@),
            r.wf(),
    {
        G1Element { point: ECP::mapit(input), v: Ghost(arbitrary()) }
    }

    /// Relies on `ECP::tobytes` in compressed form: a tag byte of 2 or 3 and
    /// the x-coordinate, zero-padded to `G1_BYTES`; a fixed-length encoding
    /// determined by the point alone, here named `g1_bytes_raw`.
    #[verifier::external_body]
    pub fn to_bytes(&self) -> (r: Vec<u8>)
        ensures
            r@ == g1_bytes_raw(self@),
            r@ == g1_bytes_of(self@),
            r@.len() == G1_BYTES,
            r@[0] == 2 || r@[0] == 3,
    {
        let mut b: [u8; 58] = [0; 58];
        self.point.tobytes(&mut b, true);
        b.to_vec()
    }

    /// Decodes a fixed-length encoding produced by `to_bytes`; rejects input
    /// of the wrong shape and points outside the prime-order subgroup.
    pub fn from_bytes(bytes: &[u8]) -> (r: Result<Self, Error>)
        ensures
            (r matches Ok(p) ==> p.wf()),
            (r matches Err(e) ==> e == Error::DecodeError),
            bytes@.len() == G1_BYTES && (bytes@[0] == 2 || bytes@[0] == 3)
                ==> (forall|x: int|
                    1 <= x < group_order() && bytes@ == g1_bytes_of(x)
                        ==> (r matches Ok(p) && p@ == x)),
            bytes@.len() != G1_BYTES ==> (r matches Err(e) && e == Error::DecodeError),
            !(bytes@[0] == 2 || bytes@[0] == 3) ==> (r matches Err(e) && e == Error::DecodeError),
    {
        if bytes.len() != G1_BYTES {
            return Err(Error::DecodeError);
        }
        if !(bytes[0] == 2 || bytes[0] == 3) {
            return Err(Error::DecodeError);
        }
        Self::decode_checked(bytes)
    }

    /// Relies on `ECP::frombytes` and `pair::g1member`: parsing a compressed
    /// tag-2-or-3 encoding inverts `tobytes`, and the membership test accepts
    /// exactly the points of the prime-order subgroup other than infinity.
    #[verifier::external_body]
    fn decode_checked(bytes: &[u8]) -> (r: Result<Self, Error>)
        requires
            bytes@.len() == G1_BYTES,
            bytes@[0] == 2 || bytes@[0] == 3,
        ensures
            (r matches Ok(p) ==> p.wf()),
            (r matches Err(e) ==> e == Error::DecodeError),
            (r matches Ok(p) ==> forall|x: int|
                1 <= x < group_order() && bytes@ == g1_bytes_of(x) ==> p@ == x),
            (r matches Err(e) ==> forall|x: int|
                1 <= x < group_order() ==> bytes@ != g1_bytes_of(x)),
    {
        let p = ECP::frombytes(bytes);
        if pair::g1member(&p) {
            Ok(G1Element { point: p, v: Ghost(arbitrary()) })
        } else {
            Err(Error::DecodeError)
        }
    }
}

impl G2Element {
    /// A well-formed element's view is a discrete logarithm.
    pub open spec fn wf(&self) -> bool {
        0 <= self@ < group_order()
    }

    /// Relies on `ECP2::generator`: the standardized base point of G2. It is
    /// the reference point of the discrete-logarithm view, so its view is 1.
    #[verifier::external_body]
    pub fn generator() -> (r: Self)
        ensures
            r@ == 1,
    {
        G2Element { point: ECP2::generator(), v: Ghost(arbitrary()) }
    }

    /// Relies on `ECP2::mapit`: a deterministic map from arbitrary bytes onto
    /// the prime-order subgroup of G2 (the cofactor is cleared), here named
    /// `g2_hash_raw`.
    #[verifier::external_body]
    pub fn hash_to_curve(input: &[u8]) -> (r: Self)
        ensures
            r@ == g2_hash_raw(input@),
            r@ == g2_hash_of(input@),
            r.wf(),
    {
        G2Element { point: ECP2::mapit(input), v: Ghost(arbitrary()) }
    }

    /// Relies on `ECP2::tobytes` in compressed form: a tag byte of 2 or 3 and
    /// the 96-byte x-coordinate; a fixed-length encoding determined by the
    /// point alone, here named `g2_bytes_raw`.
    #[verifier::external_body]
    pub fn to_bytes(&self) -> (r: Vec<u8>)
        ensures
            r@ == g2_bytes_raw(self@),
            r@ == g2_bytes_of(self@),
            r@.len() == G2_BYTES,
            r@[0] == 2 || r@[0] == 3,
    {
        let mut b: [u8; 97] = [0; 97];
        self.point.tobytes(&mut b, true);
        b.to_vec()
    }

    /// Decodes a fixed-length encoding produced by `to_bytes`; rejects input
    /// of the wrong shape and points outside the prime-order subgroup.
    pub fn from_bytes(bytes: &[u8]) -> (r: Result<Self, Error>)
        ensures
            (r matches Ok(p) ==> p.wf()),
            (r matches Err(e) ==> e == Error::DecodeError),
            bytes@.len() == G2_BYTES && (bytes@[0] == 2 || bytes@[0] == 3)
                ==> (forall|x: int|
                    1 <= x < group_order() && bytes@ == g2_bytes_of(x)
                        ==> (r matches Ok(p) && p@ == x)),
            bytes@.len() != G2_BYTES ==> (r matches Err(e) && e == Error::DecodeError),
            !(bytes@[0] == 2 || bytes@[0] == 3) ==> (r matches Err(e) && e == Error::DecodeError),
    {
        if bytes.len() != G2_BYTES {
            return Err(Error::DecodeError);
        }
        if !(bytes[0] == 2 || bytes[0] == 3) {
            return Err(Error::DecodeError);
        }
        Self::decode_checked(bytes)
    }

    /// Relies on `ECP2::frombytes` and `pair::g2member`: parsing a compressed
    /// tag-2-or-3 encoding inverts `tobytes`, and the membership test accepts
    /// exactly the points of the prime-order subgroup.
    #[verifier::external_body]
    fn decode_checked(bytes: &[u8]) -> (r: Result<Self, Error>)
        requires
            bytes@.len() == G2_BYTES,
            bytes@[0] == 2 || bytes@[0] == 3,
        ensures
            (r matches Ok(p) ==> p.wf()),
            (r matches Err(e) ==> e == Error::DecodeError),
            (r matches Ok(p) ==> forall|x: int|
                1 <= x < group_order() && bytes@ == g2_bytes_of(x) ==> p@ == x),
            (r matches Err(e) ==> forall|x: int|
                1 <= x < group_order() ==> bytes@ != g2_bytes_of(x)),
    {
        let p = ECP2::frombytes(bytes);
        if pair::g2member(&p) && !p.is_infinity() {
            Ok(G2Element { point: p, v: Ghost(arbitrary()) })
        } else {
            Err(Error::DecodeError)
        }
    }
}

impl GTElement {
    /// A well-formed element's view is a discrete logarithm.
    pub open spec fn wf(&self) -> bool {
        0 <= self@ < group_order()
    }

    /// Relies on `FP12::tobytes`: the twelve field coordinates of the
    /// element, a fixed-length encoding determined by the element alone,
    /// here named `gt_bytes_raw`.
    #[verifier::external_body]
    pub fn to_bytes(&self) -> (r: Vec<u8>)
        ensures
            r@ == gt_bytes_raw(self@),
            r@ == gt_bytes_of(self@),
            r@.len() == GT_BYTES,
    {
        let mut b: [u8; 576] = [0; 576];
        let mut x = self.elem;
        x.tobytes(&mut b);
        b.to_vec()
    }

    /// Decodes a fixed-length encoding produced by `to_bytes`; rejects input
    /// of the wrong length and elements outside the prime-order subgroup.
    pub fn from_bytes(bytes: &[u8]) -> (r: Result<Self, Error>)
        ensures
            (r matches Ok(p) ==> p.wf()),
            (r matches Err(e) ==> e == Error::DecodeError),
            bytes@.len() == GT_BYTES
                ==> (forall|x: int|
                    1 <= x < group_order() && bytes@ == gt_bytes_of(x)
                        ==> (r matches Ok(p) && p@ == x)),
            bytes@.len() != GT_BYTES ==> (r matches Err(e) && e == Error::DecodeError),
    {
        if bytes.len() != GT_BYTES {
            return Err(Error::DecodeError);
        }
        Self::decode_checked(bytes)
    }

    /// Relies on `FP12::frombytes` and `pair::gtmember`: parsing the twelve
    /// coordinates inverts `tobytes`, and the membership test accepts exactly
    /// the elements of the prime-order subgroup other than unity.
    #[verifier::external_body]
    fn decode_checked(bytes: &[u8]) -> (r: Result<Self, Error>)
        requires
            bytes@.len() == GT_BYTES,
        ensures
            (r matches Ok(p) ==> p.wf()),
            (r matches Err(e) ==> e == Error::DecodeError),
            (r matches Ok(p) ==> forall|x: int|
                1 <= x < group_order() && bytes@ == gt_bytes_of(x) ==> p@ == x),
            (r matches Err(e) ==> forall|x: int|
                1 <= x < group_order() ==> bytes@ != gt_bytes_of(x)),
    {
        let p = FP12::frombytes(bytes);
        if pair::gtmember(&p) {
            Ok(GTElement { elem: p, v: Ghost(arbitrary()) })
        } else {
            Err(Error::DecodeError)
        }
    }
}

impl Scalar {
    /// A well-formed scalar's view is a field element, reduced modulo the
    /// group order.
    pub open spec fn wf(&self) -> bool {
        0 <= self@ < group_order()
    }

    /// Relies on `pair::g1mul`: scalar multiplication in G1, which in the
    /// discrete-logarithm view multiplies the logarithm by the scalar modulo
    /// the group order.
    #[verifier::external_body]
    pub fn mul_g1(&self, e: &G1Element) -> (r: G1Element)
        requires
            self.wf(),
            e.wf(),
        ensures
            r@ == elem_mul_of(e@, self@),
            r.wf(),
    {
        G1Element { point: pair::g1mul(&e.point, &self.big), v: Ghost(arbitrary()) }
    }

    /// Relies on `pair::g2mul`: scalar multiplication in G2, which in the
    /// discrete-logarithm view multiplies the logarithm by the scalar modulo
    /// the group order.
    #[verifier::external_body]
    pub fn mul_g2(&self, e: &G2Element) -> (r: G2Element)
        requires
            self.wf(),
            e.wf(),
        ensures
            r@ == elem_mul_of(e@, self@),
            r.wf(),
    {
        G2Element { point: pair::g2mul(&e.point, &self.big), v: Ghost(arbitrary()) }
    }

    /// Relies on `BIG::tobytes`: the fixed-length big-endian encoding of the
    /// scalar's value.
    #[verifier::external_body]
    pub fn to_bytes(&self) -> (r: Vec<u8>)
        requires
            self.wf(),
        ensures
            r@ == be_bytes_of(self@, SCALAR_BYTES as nat),
            r@.len() == SCALAR_BYTES,
    {
        let mut b: [u8; 48] = [0; 48];
        self.big.tobytes(&mut b);
        b.to_vec()
    }

    /// Decodes the fixed-length big-endian encoding of a field element;
    /// rejects input of the wrong length and values at or above the group
    /// order, so that exactly the canonical encodings are accepted.
    pub fn from_bytes(bytes: &[u8]) -> (r: Result<Self, Error>)
        ensures
            (r matches Ok(s) ==> s@ == be_val(bytes@) && s.wf()),
            (r matches Err(e) ==> e == Error::DecodeError),
            bytes@.len() == SCALAR_BYTES
                ==> ((r matches Ok(s2)) <==> be_val(bytes@) < group_order()),
            bytes@.len() != SCALAR_BYTES ==> (r matches Err(e) && e == Error::DecodeError),
    {
        if bytes.len() != SCALAR_BYTES {
            return Err(Error::DecodeError);
        }
        Self::decode_checked(bytes)
    }

    /// Relies on `BIG::frombytes` (big-endian) and `BIG::comp` against
    /// `rom::CURVE_ORDER`: the decoded value, accepted only below the order.
    #[verifier::external_body]
    fn decode_checked(bytes: &[u8]) -> (r: Result<Self, Error>)
        requires
            bytes@.len() == SCALAR_BYTES,
        ensures
            (r matches Ok(s) ==> s@ == be_val(bytes@) && s.wf()),
            (r matches Err(e) ==> e == Error::DecodeError),
            (r matches Ok(s2)) <==> be_val(bytes@) < group_order(),
    {
        let v = BIG::frombytes(bytes);
        let q = BIG::new_ints(&rom::CURVE_ORDER);
        if BIG::comp(&v, &q) < 0 {
            Ok(Scalar { big: v, v: Ghost(arbitrary()) })
        } else {
            Err(Error::DecodeError)
        }
    }

    /// Deterministic derivation of a field element from an arbitrary-length
    /// seed: the seed drives a generator whose first 32 bytes become input
    /// keying material for HKDF under a fixed domain-separation salt; the
    /// expansion length leaves at least 128 bits of slack over the order's
    /// 255 bits (rounded up to whole bytes, halved as the extraction
    /// granularity), so the reduction's bias is negligible.
    pub fn random(seed: &[u8]) -> (r: Self)
        ensures
            r@ == scalar_of_seed(seed@),
            r.wf(),
    {
        let ikm = seed_ikm(seed);
        let nb = order_nbits();
        let el = ceil(3 * ceil(nb, 8), 2);
        assert(el == 48);
        let okm = hkdf_derive(ikm.as_slice(), el);
        scalar_reduce(okm.as_slice())
    }

    /// The seeded derivation under the name the byte-decoding entry points
    /// share; it is a derivation, not a decoder, and never fails.
    pub fn from_bytes_random(input: &[u8]) -> (r: Self)
        ensures
            r@ == scalar_of_seed(input@),
            r.wf(),
    {
        Self::random(input)
    }
}

/// Relies on miracl's `RAND` generator (Marsaglia-Zaman): seeded with the
/// given bytes it is a deterministic stream, so its first 32 bytes are a pure
/// function of the seed, here named `seed_ikm_raw`.
#[verifier::external_body]
fn seed_ikm(seed: &[u8]) -> (r: Vec<u8>)
    ensures
        r@ == seed_ikm_raw(seed@),
        r@.len() == 32,
{
    let mut rng = RAND_impl::new();
    rng.seed(seed.len(), seed);
    let mut ikm: Vec<u8> = Vec::with_capacity(32);
    for _ in 0..32 {
        ikm.push(rng.getbyte());
    }
    ikm
}

/// Relies on `rom::CURVE_ORDER` and `BIG::nbits`: the group order is a
/// 255-bit prime.
#[verifier::external_body]
fn order_nbits() -> (r: usize)
    ensures
        r == 255,
{
    BIG::new_ints(&rom::CURVE_ORDER).nbits()
}

/// Relies on `hmac::hkdf_extract` and `hmac::hkdf_expand` (HKDF-SHA-256)
/// under this crate's fixed domain-separation salt: the output is a pure
/// function of the input keying material and the length, here named
/// `hkdf_raw`.
#[verifier::external_body]
fn hkdf_derive(ikm: &[u8], olen: usize) -> (r: Vec<u8>)
    requires
        1 <= olen <= 128,
    ensures
        r@ == hkdf_raw(ikm@, olen as nat),
        r@.len() == olen,
{
    let hlen = ecp::HASH_TYPE;
    let mut prk: [u8; 64] = [0; 64];
    let mut okm: [u8; 128] = [0; 128];
    hmac::hkdf_extract(hmac::MC_SHA2, hlen, &mut prk, Some(b"BLS-IBE-KEYGEN-SALT-"), ikm);
    hmac::hkdf_expand(hmac::MC_SHA2, hlen, &mut okm, olen, &prk[0..hlen], b"");
    okm[0..olen].to_vec()
}

/// Relies on `DBIG::frombytes` (big-endian) and `DBIG::dmod` against
/// `rom::CURVE_ORDER`: the value of the bytes reduced modulo the group
/// order.
#[verifier::external_body]
fn scalar_reduce(bytes: &[u8]) -> (r: Scalar)
    requires
        bytes@.len() <= 96,
    ensures
        r@ == be_val(bytes@) % group_order(),
        r.wf(),
{
    let q = BIG::new_ints(&rom::CURVE_ORDER);
    let mut d = DBIG::frombytes(bytes);
    Scalar { big: d.dmod(&q), v: Ghost(arbitrary()) }
}

/// Relies on `pair::initmp`, `pair::another`, `pair::miller` and
/// `pair::fexp`: together the optimal Ate pairing, the bilinear map of the
/// curve. In the discrete-logarithm view (GT referenced to the pairing of
/// the two generators), bilinearity means the result's logarithm is the
/// product of the arguments' logarithms modulo the group order.
#[verifier::external_body]
pub fn pair(g1: &G1Element, g2: &G2Element) -> (r: GTElement)
    requires
        g1.wf(),
        g2.wf(),
    ensures
        r@ == pairing_of(g1@, g2@),
        r.wf(),
{
    let mut tmp = pair::initmp();
    pair::another(&mut tmp, &g2.point, &g1.point);
    let a = pair::miller(&mut tmp);
    GTElement { elem: pair::fexp(&a), v: Ghost(arbitrary()) }
}

/// Rounds the quotient `a / b` upward; `a` and `b` must be positive.
pub fn ceil(a: usize, b: usize) -> (r: usize)
    requires
        a >= 1,
        b >= 1,
    ensures
        r == (a - 1) as int / b as int + 1,
{
    proof {
        assert((a - 1) / (b as int) <= a - 1) by (nonlinear_arith)
            requires
                a >= 1,
                b >= 1,
        ;
    }
    (a - 1) / b + 1
}

/// Relies on `ECP::equals`: two elements are equal exactly when they are the
/// same point, that is, when their views coincide.
#[verifier::external_body]
fn g1_equals(a: &G1Element, b: &G1Element) -> (r: bool)
    ensures
        r == (a@ == b@),
{
    a.point.equals(&b.point)
}

impl PartialEq for G1Element {
    fn eq(&self, other: &Self) -> bool {
        g1_equals(self, other)
    }
}

impl vstd::std_specs::cmp::PartialEqSpecImpl for G1Element {
    open spec fn obeys_eq_spec() -> bool {
        true
    }

    open spec fn eq_spec(&self, other: &Self) -> bool {
        self@ == other@
    }
}

/// Relies on `ECP2::equals`: two elements are equal exactly when they are
/// the same point, that is, when their views coincide.
#[verifier::external_body]
fn g2_equals(a: &G2Element, b: &G2Element) -> (r: bool)
    ensures
        r == (a@ == b@),
{
    a.point.equals(&b.point)
}

impl PartialEq for G2Element {
    fn eq(&self, other: &Self) -> bool {
        g2_equals(self, other)
    }
}

impl vstd::std_specs::cmp::PartialEqSpecImpl for G2Element {
    open spec fn obeys_eq_spec() -> bool {
        true
    }

    open spec fn eq_spec(&self, other: &Self) -> bool {
        self@ == other@
    }
}

/// Relies on `FP12::equals`: two elements are equal exactly when they are
/// the same field element, that is, when their views coincide.
#[verifier::external_body]
fn gt_equals(a: &GTElement, b: &GTElement) -> (r: bool)
    ensures
        r == (a@ == b@),
{
    a.elem.equals(&b.elem)
}

impl PartialEq for GTElement {
    fn eq(&self, other: &Self) -> bool {
        gt_equals(self, other)
    }
}

impl vstd::std_specs::cmp::PartialEqSpecImpl for GTElement {
    open spec fn obeys_eq_spec() -> bool {
        true
    }

    open spec fn eq_spec(&self, other: &Self) -> bool {
        self@ == other@
    }
}

/// Relies on `BIG::comp`: two scalars are equal exactly when they hold the
/// same value, that is, when their views coincide.
#[verifier::external_body]
fn scalar_equals(a: &Scalar, b: &Scalar) -> (r: bool)
    ensures
        r == (a@ == b@),
{
    BIG::comp(&a.big, &b.big) == 0
}

impl PartialEq for Scalar {
    fn eq(&self, other: &Self) -> bool {
        scalar_equals(self, other)
    }
}

impl vstd::std_specs::cmp::PartialEqSpecImpl for Scalar {
    open spec fn obeys_eq_spec() -> bool {
        true
    }

    open spec fn eq_spec(&self, other: &Self) -> bool {
        self@ == other@
    }
}

/// `pow256(SCALAR_BYTES)` written out: the number of values a scalar
/// encoding can denote, comfortably above the 255-bit group order.
pub proof fn lemma_pow256_scalar_bytes()
    ensures
        crate::bytes::pow256(SCALAR_BYTES as nat)
            == 0x1000000000000000000000000000000000000000000000000000000000000000000000000000000000000000000000000int,
{
    reveal_with_fuel(crate::bytes::pow256, 49);
}

/// Serialization round trip for scalars: the fixed-length big-endian
/// encoding of a well-formed scalar value denotes the value again, and lies
/// below the group order, so the decoder accepts it and returns the value.
pub proof fn lemma_scalar_bytes_round_trip(x: int)
    requires
        0 <= x < group_order(),
    ensures
        be_val(be_bytes_of(x, SCALAR_BYTES as nat)) == x,
        be_val(be_bytes_of(x, SCALAR_BYTES as nat)) < group_order(),
{
    lemma_pow256_scalar_bytes();
    crate::bytes::lemma_be_round_trip(x, SCALAR_BYTES as nat);
}

/// Bilinearity of the pairing: for all scalars `a`, `b` and elements `p` of
/// G1 and `q` of G2, pairing `a * p` with `b * q` equals the pairing of `p`
/// and `q` raised to `a * b`.
pub proof fn lemma_pairing_bilinear(a: int, b: int, p: int, q: int)
    ensures
        pairing_of(elem_mul_of(p, a), elem_mul_of(q, b))
            == gt_pow_of(pairing_of(p, q), (a * b) % group_order()),
{
    let o = group_order();
    vstd::arithmetic::div_mod::lemma_mul_mod_noop_general(p * a, q * b, o);
    vstd::arithmetic::div_mod::lemma_mul_mod_noop_general(p * q, a * b, o);
    assert((p * a) * (q * b) == (p * q) * (a * b)) by (nonlinear_arith);
}

} // verus!
