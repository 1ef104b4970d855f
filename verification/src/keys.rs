//! Long-lived Ed25519 host-authentication keys.

use crate::error::OssuaryError;
use crate::KEY_LEN;
use rand::rngs::OsRng;
use vstd::prelude::*;

verus! {

#[verifier::external_type_specification]
#[verifier::external_body]
pub struct ExOsRng(rand::rngs::OsRng);

#[verifier::external_type_specification]
#[verifier::external_body]
pub struct ExRandError(rand::Error);

/// The Ed25519 public key that belongs to a 32-byte secret key (the secret
/// hashed with SHA-512, clamped, and multiplied by the base point).
pub uninterp spec fn ed25519_public_key_of(secret: Seq<u8>) -> Seq<u8>;

/// Opens the operating system's generator with `rand::rngs::OsRng::new`.
/// Whether it opens depends on the machine: nothing is claimed of the result.
#[verifier::external_body]
fn os_rng_new() -> (r: Result<OsRng, rand::Error>) {
    OsRng::new()
}

/// Generates a keypair with `ed25519_dalek::Keypair::generate` from `rng` and
/// returns the bytes of its secret key and of its public key. The secret key
/// is 32 bytes drawn from `rng`, so nothing is claimed of it; the public key is
/// the one that `ed25519_dalek::PublicKey::from(&SecretKey)` derives from it.
/// Left unsaid: `OsRng::fill_bytes` panics when the operating system keeps
/// failing to deliver randomness for about ten seconds.
#[verifier::external_body]
fn keypair_generate(rng: &mut OsRng) -> (kp: ([u8; KEY_LEN], [u8; KEY_LEN]))
    ensures
        kp.1@ == ed25519_public_key_of(kp.0@),
{
    let keypair = ed25519_dalek::Keypair::generate(rng);
    (keypair.secret.to_bytes(), keypair.public.to_bytes())
}

/// Generate a secret/public Ed25519 keypair for host authentication, as
/// `(secret, public)` bytes.
///
/// Fails with `RandomSource` when the operating system's generator cannot be
/// opened; on success the public key is the one that belongs to the secret.
pub fn generate_auth_keypair() -> (r: Result<([u8; KEY_LEN], [u8; KEY_LEN]), OssuaryError>)
    ensures
        match r {
            Ok((secret, public)) => public@ == ed25519_public_key_of(secret@),
            Err(e) => e == OssuaryError::RandomSource,
        },
{
    let mut rng = match os_rng_new() {
        Ok(rng) => rng,
        Err(_) => return Err(OssuaryError::RandomSource),
    };
    Ok(keypair_generate(&mut rng))
}

} // verus!
