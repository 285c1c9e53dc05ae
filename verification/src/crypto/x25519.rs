//! Conversion of the transport's Ed25519 identity keys into the X25519 keys
//! that the Noise handshake takes as static keys.

use vstd::prelude::*;

verus! {

/// The X25519 secret that belongs to an Ed25519 secret key: the scalar bytes
/// of its expansion, neither clamped nor reduced.
pub uninterp spec fn x25519_secret_of(ed25519_secret: Seq<u8>) -> Seq<u8>;

/// The X25519 public key that belongs to an Ed25519 public key: its point in
/// Montgomery form. `None` where the bytes are no point of the curve.
pub uninterp spec fn x25519_public_of(ed25519_public: Seq<u8>) -> Option<Seq<u8>>;

/// `ed25519_dalek::SigningKey::to_scalar_bytes`, on the key that
/// `SigningKey::from_bytes` makes of the transport's secret, passed through
/// `x25519_dalek::StaticSecret`.
///
/// Trusted: the result is the X25519 secret that belongs to the identity.
#[verifier::external_body]
pub fn iroh_secret_to_x25519_secret(iroh_secret_key: &[u8; 32]) -> (x25519_secret: [u8; 32])
    ensures
        x25519_secret@ == x25519_secret_of(iroh_secret_key@),
{
    let ed25519_secret = ed25519_dalek::SigningKey::from_bytes(iroh_secret_key);
    x25519_dalek::StaticSecret::from(ed25519_secret.to_scalar_bytes()).to_bytes()
}

/// `ed25519_dalek::VerifyingKey::to_montgomery`, on the key that
/// `VerifyingKey::from_bytes` makes of the transport's public identity,
/// passed through `x25519_dalek::PublicKey`.
///
/// Trusted: the result is the X25519 public key that belongs to the
/// identity, and `None` exactly where the identity is no point of the curve.
#[verifier::external_body]
pub fn iroh_public_to_x25519_public(iroh_public_key: &[u8; 32]) -> (x25519_public: Option<[u8; 32]>)
    ensures
        match x25519_public {
            Some(key) => x25519_public_of(iroh_public_key@) == Some(key@),
            None => x25519_public_of(iroh_public_key@) is None,
        },
{
    let ed25519_public = ed25519_dalek::VerifyingKey::from_bytes(iroh_public_key).ok()?;
    Some(x25519_dalek::PublicKey::from(ed25519_public.to_montgomery().0).to_bytes())
}

} // verus!
