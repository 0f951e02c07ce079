//! The protocol layer: registration and challenge/response login on top of
//! the IBE scheme. A user's identifier and password are hashed into an
//! identity string `s` and a registration secret `t`; the server stores the
//! IBE private key for `s` together with a one-way tag of `t`, never the
//! password. A login encrypts `t`, the session identifier and an opaque
//! token for identity `s`; the server decrypts with the stored key and
//! accepts only if the tag and the session identifier match, so a captured
//! message cannot be replayed against another session.
use vstd::prelude::*;
use crate::bytes::{bytes_eq, concat3, sub_bytes};
use crate::ibe::{
    decrypt, decrypt_spec, encrypt, encrypt_spec, keygen, keygen_of, lemma_ibe_round_trip,
    random_oracle, ro_of, Ciphertext, Key, MasterSecret, PublicParameters,
};
use crate::pairings::{elem_mul_of, group_order, scalar_of_seed};
use crate::Error;

verus! {

/// The security parameter: the byte length of the derived identity string,
/// of the registration secret, and of its tag.
pub const LAMBDA: usize = 32;

/// The deployment's secret: the IBE master secret.
pub type SecretParameters = MasterSecret;

/// A client's login message: an IBE ciphertext over the registration
/// secret, the session identifier and the token.
pub type LoginMessage = Ciphertext;

/// The artifact the server persists per user in place of the password: the
/// IBE private key for the password-derived identity and a one-way tag of
/// the password-derived registration secret.
pub struct PasswordFile {
    pub key: Key,
    pub tag: Vec<u8>,
}

/// The identity string derived from a user identifier and password: the
/// first half of a `2 * LAMBDA`-byte hash of their concatenation.
pub open spec fn s_of(uid: Seq<u8>, password: Seq<u8>) -> Seq<u8> {
    ro_of(uid + password, (2 * LAMBDA) as nat).subrange(0, LAMBDA as int)
}

/// The registration secret derived from a user identifier and password: the
/// second half of the same hash.
pub open spec fn t_of(uid: Seq<u8>, password: Seq<u8>) -> Seq<u8> {
    ro_of(uid + password, (2 * LAMBDA) as nat).subrange(LAMBDA as int, (2 * LAMBDA) as int)
}

/// The tag stored at registration: a `LAMBDA`-byte hash of the registration
/// secret.
pub open spec fn tag_of(uid: Seq<u8>, password: Seq<u8>) -> Seq<u8> {
    ro_of(t_of(uid, password), LAMBDA as nat)
}

/// Derives the identity string and the registration secret of a
/// `(user identifier, password)` pair.
pub fn compute_s_and_t(uid: &[u8], password: &[u8]) -> (r: (Vec<u8>, Vec<u8>))
    ensures
        r.0@ == s_of(uid@, password@),
        r.1@ == t_of(uid@, password@),
        r.0@.len() == LAMBDA,
        r.1@.len() == LAMBDA,
{
    let cat = crate::bytes::concat2(uid, password);
    let st = random_oracle(cat.as_slice(), 2 * LAMBDA);
    let s = sub_bytes(st.as_slice(), 0, LAMBDA);
    let t = sub_bytes(st.as_slice(), LAMBDA, 2 * LAMBDA);
    (s, t)
}

/// Draws the deployment's master secret from the given uniformly random
/// bytes and forms the public parameters.
pub fn setup(random_bytes: &[u8]) -> (r: (PublicParameters, SecretParameters))
    requires
        random_bytes@.len() == LAMBDA,
    ensures
        r.0.p@ == 1,
        r.1@ == scalar_of_seed(random_bytes@),
        r.0.p_pub@ == r.1@,
        r.0.wf(),
        r.1.wf(),
{
    crate::ibe::setup(random_bytes)
}

/// Registers a user: derives `(s, t)` from the identifier and password and
/// stores the IBE key for `s` beside the tag of `t`.
pub fn register(sk: SecretParameters, uid: &[u8], password: &[u8]) -> (r: PasswordFile)
    requires
        sk.wf(),
    ensures
        r.key@ == keygen_of(sk@, s_of(uid@, password@)),
        r.tag@ == tag_of(uid@, password@),
        r.key.wf(),
        r.tag@.len() == LAMBDA,
{
    let st = compute_s_and_t(uid, password);
    let f_t = random_oracle(st.1.as_slice(), LAMBDA);
    let key = keygen(sk, st.0.as_slice());
    PasswordFile { key, tag: f_t }
}

/// Produces a login message: the registration secret, the session
/// identifier and the token, encrypted for the password-derived identity
/// under the caller-supplied uniformly random seed.
pub fn client_login(
    pp: &PublicParameters,
    ssid: &[u8],
    tok: &[u8],
    uid: &[u8],
    password: &[u8],
    sigma: &[u8],
) -> (r: LoginMessage)
    requires
        pp.wf(),
        sigma@.len() == LAMBDA,
        LAMBDA + ssid@.len() + tok@.len() <= 99,
    ensures
        (r.u@, r.v@, r.w@) == encrypt_spec(
            pp.p@,
            pp.p_pub@,
            s_of(uid@, password@),
            t_of(uid@, password@) + ssid@ + tok@,
            sigma@,
        ),
        r.u.wf(),
        r.v@.len() == LAMBDA,
        r.w@.len() == LAMBDA + ssid@.len() + tok@.len(),
{
    let st = compute_s_and_t(uid, password);
    let msg = concat3(st.1.as_slice(), ssid, tok);
    encrypt(pp, st.0.as_slice(), msg.as_slice(), sigma)
}

/// What the server answers for a login message `(u, v, w)` checked against
/// session identifier `ssid` and a stored `(key, tag)`: the token carried in
/// the decrypted payload, or a failure. A ciphertext-integrity failure and a
/// tag or session mismatch collapse into the same authentication failure; a
/// payload too short for the expected fields is reported as such.
pub open spec fn server_login_spec(
    p: int,
    ssid: Seq<u8>,
    key: int,
    tag: Seq<u8>,
    u: int,
    v: Seq<u8>,
    w: Seq<u8>,
) -> Result<Seq<u8>, Error> {
    match decrypt_spec(p, key, u, v, w) {
        Result::Err(_) => Result::Err(Error::AuthenticationFailure),
        Result::Ok(pt) => if pt.len() < LAMBDA + ssid.len() {
            Result::Err(Error::SessionIdTooShort)
        } else {
            let t = pt.subrange(0, LAMBDA as int);
            let ssid_prime = pt.subrange(LAMBDA as int, LAMBDA + ssid.len());
            let tok = pt.subrange(LAMBDA + ssid.len(), pt.len() as int);
            if ro_of(t, LAMBDA as nat) == tag && ssid_prime == ssid {
                Result::Ok(tok)
            } else {
                Result::Err(Error::AuthenticationFailure)
            }
        },
    }
}

/// Checks a login message against the stored artifact and the expected
/// session identifier; on success returns the token the client bound into
/// the message.
pub fn server_login(
    pp: &PublicParameters,
    ssid: &[u8],
    password_file: &PasswordFile,
    login_message: &LoginMessage,
) -> (r: Result<Vec<u8>, Error>)
    requires
        pp.wf(),
        password_file.key.wf(),
        login_message.u.wf(),
        1 <= login_message.w@.len() <= 99,
    ensures
        ({
            let d = server_login_spec(
                pp.p@,
                ssid@,
                password_file.key@,
                password_file.tag@,
                login_message.u@,
                login_message.v@,
                login_message.w@,
            );
            match r {
                Ok(tok) => d == Ok::<Seq<u8>, Error>(tok@),
                Err(e) => d == Err::<Seq<u8>, Error>(e),
            }
        }),
{
    let result = match decrypt(pp, &password_file.key, login_message) {
        Ok(m) => m,
        Err(_) => {
            return Err(Error::AuthenticationFailure);
        },
    };
    if result.len() < LAMBDA || result.len() - LAMBDA < ssid.len() {
        return Err(Error::SessionIdTooShort);
    }
    let t = sub_bytes(result.as_slice(), 0, LAMBDA);
    let ssid_prime = sub_bytes(result.as_slice(), LAMBDA, LAMBDA + ssid.len());
    let tok = sub_bytes(result.as_slice(), LAMBDA + ssid.len(), result.len());
    let h = random_oracle(t.as_slice(), LAMBDA);
    if bytes_eq(h.as_slice(), password_file.tag.as_slice()) && bytes_eq(
        ssid_prime.as_slice(),
        ssid,
    ) {
        Ok(tok)
    } else {
        Err(Error::AuthenticationFailure)
    }
}

/// Protocol success: for every deployment, session identifier, token, user
/// identifier, password and seed (with the payload inside the sponge's
/// length bound), the server accepts the registered user's login message
/// and returns exactly the token the client bound into it.
pub proof fn lemma_protocol_success(
    p: int,
    s: int,
    ssid: Seq<u8>,
    tok: Seq<u8>,
    uid: Seq<u8>,
    password: Seq<u8>,
    sigma: Seq<u8>,
)
    requires
        0 <= p < group_order(),
        0 <= s < group_order(),
        sigma.len() == LAMBDA,
    ensures
        ({
            let sid = s_of(uid, password);
            let t = t_of(uid, password);
            let c = encrypt_spec(p, elem_mul_of(p, s), sid, t + ssid + tok, sigma);
            server_login_spec(p, ssid, keygen_of(s, sid), tag_of(uid, password), c.0, c.1, c.2)
                == Ok::<Seq<u8>, Error>(tok)
        }),
{
    let sid = s_of(uid, password);
    let t = t_of(uid, password);
    let m = t + ssid + tok;
    lemma_ibe_round_trip(p, s, sid, m, sigma);
    assert(t.len() == LAMBDA);
    assert(m.subrange(0, LAMBDA as int) =~= t);
    assert(m.subrange(LAMBDA as int, LAMBDA + ssid.len()) =~= ssid);
    assert(m.subrange(LAMBDA + ssid.len(), m.len() as int) =~= tok);
}

/// Session binding: a login message produced under one session identifier
/// is rejected by a server checking a different identifier of the same
/// length. (The equal length is needed: an identifier that extends the
/// original one into the adjacent token bytes could still match, since the
/// payload carries no field separators.)
pub proof fn lemma_session_binding(
    p: int,
    s: int,
    ssid1: Seq<u8>,
    ssid2: Seq<u8>,
    tok: Seq<u8>,
    uid: Seq<u8>,
    password: Seq<u8>,
    sigma: Seq<u8>,
)
    requires
        0 <= p < group_order(),
        0 <= s < group_order(),
        sigma.len() == LAMBDA,
        ssid2.len() == ssid1.len(),
        ssid2 != ssid1,
    ensures
        ({
            let sid = s_of(uid, password);
            let t = t_of(uid, password);
            let c = encrypt_spec(p, elem_mul_of(p, s), sid, t + ssid1 + tok, sigma);
            server_login_spec(p, ssid2, keygen_of(s, sid), tag_of(uid, password), c.0, c.1, c.2)
                == Err::<Seq<u8>, Error>(Error::AuthenticationFailure)
        }),
{
    let sid = s_of(uid, password);
    let t = t_of(uid, password);
    let m = t + ssid1 + tok;
    lemma_ibe_round_trip(p, s, sid, m, sigma);
    assert(t.len() == LAMBDA);
    assert(m.subrange(LAMBDA as int, LAMBDA + ssid2.len()) =~= ssid1);
}

} // verus!
