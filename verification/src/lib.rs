//! Password-authenticated login built on identity-based encryption (IBE)
//! over a pairing-friendly elliptic curve.
//!
//! The crate has three layers. `pairings` wraps the curve arithmetic of the
//! BLS12-381 group pair and models every group element by its discrete
//! logarithm to the fixed generator of its group, so that the algebraic laws
//! the upper layers depend on become modular arithmetic. `ibe` implements a
//! Boneh-Franklin style scheme (setup, keygen, encrypt, decrypt) whose
//! decryption re-derives the encryption randomness as an integrity check.
//! `chl` implements the registration / login protocol: the server keeps a
//! password-derived artifact instead of the password, and a login exchange is
//! bound to a session identifier and a token.
use vstd::prelude::*;

pub mod bytes;
pub mod pairings;
pub mod ibe;
pub mod chl;

verus! {

/// The closed set of failure kinds the library reports. Every fallible
/// operation surfaces one of these; nothing is retried internally.
#[derive(Clone, Copy, Debug, PartialEq, Eq, Structural)]
pub enum Error {
    /// Malformed byte input handed to one of the fixed-length decoders.
    DecodeError,
    /// Decryption recovered a plaintext whose re-derived randomness does not
    /// reproduce the ciphertext's commitment point: tampering or a wrong key.
    CiphertextIntegrityFailure,
    /// A decrypted login payload is too short to contain the registration
    /// secret and the expected session identifier.
    SessionIdTooShort,
    /// Tag or session-identifier mismatch after a successful decryption, or a
    /// ciphertext-integrity failure observed by the server; the two collapse
    /// so the protocol's return value gives an attacker no oracle.
    AuthenticationFailure,
}

} // verus!

