//! The IBE layer: a Boneh-Franklin style identity-based encryption scheme
//! over the algebra layer, with four random-oracle roles built from one
//! sponge hash. Decryption re-derives the encryption randomness from the
//! recovered plaintext and rejects the ciphertext unless it reproduces the
//! commitment point, which turns a malleable encryption into one where
//! tampering is detected.
use vstd::prelude::*;
use vstd::arithmetic::div_mod::lemma_mul_mod_noop_general;
use miracl_core::sha3::SHA3;
use crate::bytes::{concat2, lemma_xor_involutive, xor_seq};
use crate::pairings::{
    bytes_fixed, elem_mul_of, g1_hash_of, group_order, gt_bytes_of, pair, pairing_of,
    scalar_of_seed, G1Element, G2Element, Scalar, SCALAR_BYTES,
};
use crate::Error;

verus! {

/// The fixed output length of the underlying hash, and the length of the
/// randomness seed drawn for each encryption (the security parameter).
pub const HASH_LEN: usize = 32;

/// The public parameters of a deployment: a generator point of G2 and the
/// master public key, the master secret times that generator.
pub struct PublicParameters {
    pub p: G2Element,
    pub p_pub: G2Element,
}

/// The master secret of a deployment: a scalar held by the issuing party.
pub type MasterSecret = Scalar;

/// A per-identity private key: the master secret times the identity's
/// hash point in G1.
pub type Key = G1Element;

/// A ciphertext: the commitment point `u`, the masked randomness seed `v`,
/// and the masked message `w`.
pub struct Ciphertext {
    pub u: G2Element,
    pub v: Vec<u8>,
    pub w: Vec<u8>,
}

impl PublicParameters {
    pub open spec fn wf(&self) -> bool {
        self.p.wf() && self.p_pub.wf()
    }
}

/// The `olen`-byte string miracl's SHA3 sponge, parameterised by the output
/// length, squeezes from the input.
pub uninterp spec fn sha3_raw(input: Seq<u8>, olen: nat) -> Seq<u8>;

/// The random oracle of the scheme: `sha3_raw`, normalised to exactly the
/// requested length.
pub open spec fn ro_of(input: Seq<u8>, olen: nat) -> Seq<u8> {
    bytes_fixed(sha3_raw(input, olen), olen)
}

/// Relies on miracl's `SHA3` (`new`, `process_array`, `hash`): one sponge
/// evaluation, a deterministic function of the input bytes and the requested
/// output length, here named `sha3_raw`. The sponge rate is positive only
/// for output lengths up to 99 bytes.
#[verifier::external_body]
pub(crate) fn random_oracle(input: &[u8], output_len: usize) -> (r: Vec<u8>)
    requires
        1 <= output_len <= 99,
    ensures
        r@ == sha3_raw(input@, output_len as nat),
        r@ == ro_of(input@, output_len as nat),
        r@.len() == output_len,
{
    let mut sh = SHA3::new(output_len);
    sh.process_array(input);
    let mut digest = vec![0u8; output_len];
    sh.hash(&mut digest);
    digest
}

/// The first random-oracle role: an identity string hashed to a G1 point.
pub open spec fn ro1_of(id: Seq<u8>) -> int {
    g1_hash_of(ro_of(id, HASH_LEN as nat))
}

fn ro1(id: &[u8]) -> (r: G1Element)
    ensures
        r@ == ro1_of(id@),
        r.wf(),
{
    let h = random_oracle(id, HASH_LEN);
    G1Element::hash_to_curve(h.as_slice())
}

/// The second random-oracle role: a pairing result hashed to a fixed-length
/// mask, applied here to the element's byte encoding.
pub open spec fn ro2_of(gt: int) -> Seq<u8> {
    ro_of(gt_bytes_of(gt), HASH_LEN as nat)
}

fn ro2_with_pairing(g1: &G1Element, g2: &G2Element) -> (r: Vec<u8>)
    requires
        g1.wf(),
        g2.wf(),
    ensures
        r@ == ro2_of(pairing_of(g1@, g2@)),
        r@.len() == HASH_LEN,
{
    let gt = pair(g1, g2);
    let bytes = gt.to_bytes();
    random_oracle(bytes.as_slice(), HASH_LEN)
}

/// The third random-oracle role: the randomness seed and the message hashed
/// to a scalar.
pub open spec fn ro3_of(sigma: Seq<u8>, message: Seq<u8>) -> int {
    scalar_of_seed(ro_of(sigma + message, SCALAR_BYTES as nat))
}

fn ro3(sigma: &[u8], message: &[u8]) -> (r: Scalar)
    ensures
        r@ == ro3_of(sigma@, message@),
        r.wf(),
{
    let cat = concat2(sigma, message);
    let h = random_oracle(cat.as_slice(), SCALAR_BYTES);
    Scalar::from_bytes_random(h.as_slice())
}

/// The fourth random-oracle role: the randomness seed stretched to a pad of
/// the caller's length.
pub open spec fn ro4_of(sigma: Seq<u8>, output_len: nat) -> Seq<u8> {
    ro_of(sigma, output_len)
}

pub fn ro4(sigma: &[u8], output_len: usize) -> (r: Vec<u8>)
    requires
        1 <= output_len <= 99,
    ensures
        r@ == ro4_of(sigma@, output_len as nat),
        r@.len() == output_len,
{
    random_oracle(sigma, output_len)
}

/// Byte-wise exclusive or of the common prefix of two byte strings.
pub fn xor(v1: &[u8], v2: &[u8]) -> (r: Vec<u8>)
    ensures
        r@ == xor_seq(v1@, v2@),
{
    let n = if v1.len() <= v2.len() { v1.len() } else { v2.len() };
    let mut r: Vec<u8> = Vec::new();
    let mut i: usize = 0;
    while i < n
        invariant
            i <= n,
            n == (if v1@.len() <= v2@.len() { v1@.len() } else { v2@.len() }),
            r@.len() == i,
            forall|k: int| 0 <= k < i ==> r@[k] == (v1@[k] ^ v2@[k]),
        decreases n - i,
    {
        r.push(v1[i] ^ v2[i]);
        i = i + 1;
    }
    proof {
        assert(r@ =~= xor_seq(v1@, v2@));
    }
    r
}

/// Draws the master secret from the given uniformly random bytes and forms
/// the public parameters: the G2 generator and the secret times it.
pub fn setup(random_bytes: &[u8]) -> (r: (PublicParameters, MasterSecret))
    requires
        random_bytes@.len() == HASH_LEN,
    ensures
        r.0.p@ == 1,
        r.1@ == scalar_of_seed(random_bytes@),
        r.0.p_pub@ == r.1@,
        r.0.wf(),
        r.1.wf(),
{
    let g = G2Element::generator();
    let s = Scalar::random(random_bytes);
    let h = s.mul_g2(&g);
    proof {
        assert(elem_mul_of(1, s@) == s@) by {
            vstd::arithmetic::div_mod::lemma_small_mod(s@ as nat, group_order() as nat);
        };
    }
    (PublicParameters { p: g, p_pub: h }, s)
}

/// The view of the private key derived for identity `id` from master
/// secret `s`.
pub open spec fn keygen_of(s: int, id: Seq<u8>) -> int {
    elem_mul_of(ro1_of(id), s)
}

/// Derives the private key of an identity: the master secret times the
/// identity's hash point.
pub fn keygen(s: MasterSecret, id: &[u8]) -> (r: Key)
    requires
        s.wf(),
    ensures
        r@ == keygen_of(s@, id@),
        r.wf(),
{
    let qid = ro1(id);
    s.mul_g1(&qid)
}

/// The three components of the ciphertext `encrypt` produces: the commitment
/// point `r * p`, the seed masked with the hashed pairing of `r * H1(id)`
/// and the master public key, and the message masked with the seed's pad.
pub open spec fn encrypt_spec(p: int, p_pub: int, id: Seq<u8>, m: Seq<u8>, sigma: Seq<u8>) -> (
    int,
    Seq<u8>,
    Seq<u8>,
) {
    let r = ro3_of(sigma, m);
    let qid = ro1_of(id);
    let gt = pairing_of(elem_mul_of(qid, r), p_pub);
    (elem_mul_of(p, r), xor_seq(sigma, ro2_of(gt)), xor_seq(m, ro4_of(sigma, m.len())))
}

/// Encrypts `message` for `id` under the public parameters, committing to
/// the caller-supplied uniformly random seed `sigma`.
pub fn encrypt(pp: &PublicParameters, id: &[u8], message: &[u8], sigma: &[u8]) -> (c: Ciphertext)
    requires
        pp.wf(),
        sigma@.len() == HASH_LEN,
        1 <= message@.len() <= 99,
    ensures
        (c.u@, c.v@, c.w@) == encrypt_spec(pp.p@, pp.p_pub@, id@, message@, sigma@),
        c.u.wf(),
        c.v@.len() == HASH_LEN,
        c.w@.len() == message@.len(),
{
    let qid = ro1(id);
    let r = ro3(sigma, message);
    let u = r.mul_g2(&pp.p);
    let rqid = r.mul_g1(&qid);
    let mask = ro2_with_pairing(&rqid, &pp.p_pub);
    let v = xor(sigma, mask.as_slice());
    let pad = ro4(sigma, message.len());
    let w = xor(message, pad.as_slice());
    Ciphertext { u, v, w }
}

/// What decrypting `(u, v, w)` with key `key` under generator point `p`
/// yields: the seed and message recovered by unmasking, returned only if
/// the re-derived randomness reproduces the commitment point `u`.
pub open spec fn decrypt_spec(p: int, key: int, u: int, v: Seq<u8>, w: Seq<u8>) -> Result<
    Seq<u8>,
    Error,
> {
    let gt = pairing_of(key, u);
    let sigma = xor_seq(v, ro2_of(gt));
    let m = xor_seq(w, ro4_of(sigma, w.len()));
    if u == elem_mul_of(p, ro3_of(sigma, m)) {
        Ok(m)
    } else {
        Err(Error::CiphertextIntegrityFailure)
    }
}

/// Decrypts a ciphertext; fails with a ciphertext-integrity error exactly
/// when the re-derived randomness does not reproduce the commitment point.
pub fn decrypt(pp: &PublicParameters, key: &Key, ciphertext: &Ciphertext) -> (r: Result<
    Vec<u8>,
    Error,
>)
    requires
        pp.wf(),
        key.wf(),
        ciphertext.u.wf(),
        1 <= ciphertext.w@.len() <= 99,
    ensures
        ({
            let d = decrypt_spec(pp.p@, key@, ciphertext.u@, ciphertext.v@, ciphertext.w@);
            match r {
                Ok(m) => d == Ok::<Seq<u8>, Error>(m@),
                Err(e) => d == Err::<Seq<u8>, Error>(e),
            }
        }),
{
    let pair_mask = ro2_with_pairing(key, &ciphertext.u);
    let sigma = xor(ciphertext.v.as_slice(), pair_mask.as_slice());
    let pad = ro4(sigma.as_slice(), ciphertext.w.len());
    let message = xor(ciphertext.w.as_slice(), pad.as_slice());
    let rprime = ro3(sigma.as_slice(), message.as_slice());
    let check = rprime.mul_g2(&pp.p);
    if ciphertext.u == check {
        Ok(message)
    } else {
        Err(Error::CiphertextIntegrityFailure)
    }
}

/// Round trip: for every generator point, master secret, identity, message
/// and seed, decrypting an encryption of the message for the identity with
/// the key derived for that identity yields the message again.
pub proof fn lemma_ibe_round_trip(p: int, s: int, id: Seq<u8>, m: Seq<u8>, sigma: Seq<u8>)
    requires
        0 <= p < group_order(),
        0 <= s < group_order(),
        sigma.len() == HASH_LEN,
    ensures
        ({
            let c = encrypt_spec(p, elem_mul_of(p, s), id, m, sigma);
            decrypt_spec(p, keygen_of(s, id), c.0, c.1, c.2) == Ok::<Seq<u8>, Error>(m)
        }),
{
    let o = group_order();
    let r = ro3_of(sigma, m);
    let qid = ro1_of(id);
    let key = keygen_of(s, id);
    let u = elem_mul_of(p, r);
    let p_pub = elem_mul_of(p, s);
    let gt_enc = pairing_of(elem_mul_of(qid, r), p_pub);
    let gt_dec = pairing_of(key, u);
    assert(gt_enc == gt_dec) by {
        lemma_mul_mod_noop_general(qid * r, p * s, o);
        lemma_mul_mod_noop_general(qid * s, p * r, o);
        assert((qid * r) * (p * s) == (qid * s) * (p * r)) by (nonlinear_arith);
    };
    let mask = ro2_of(gt_enc);
    let v = xor_seq(sigma, mask);
    lemma_xor_involutive(sigma, mask);
    assert(xor_seq(v, ro2_of(gt_dec)) == sigma);
    let pad = ro4_of(sigma, m.len());
    let w = xor_seq(m, pad);
    lemma_xor_involutive(m, pad);
    assert(w.len() == m.len());
    assert(xor_seq(w, ro4_of(sigma, w.len())) == m);
}

} // verus!
