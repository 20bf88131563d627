//! The calls into ed25519-dalek, each behind a contract that names what it
//! computes.

use vstd::prelude::*;

use ed25519_dalek::{Digest, Keypair, SecretKey, Sha512, Signer, Verifier};

use crate::keys::scalar_bits_clear;

verus! {

/// The error type of ed25519-dalek, carried only as far as it takes to map it
/// to `Error`.
#[verifier::external_type_specification]
#[verifier::external_body]
pub struct ExSignatureError(ed25519_dalek::SignatureError);

/// The compressed public key that Ed25519 derives from a 32-byte seed.
pub uninterp spec fn public_of(seed: Seq<u8>) -> Seq<u8>;

/// The deterministic Ed25519 signature that the key pair of `seed` makes on `msg`.
pub uninterp spec fn signature_of(seed: Seq<u8>, msg: Seq<u8>) -> Seq<u8>;

/// The Ed25519ph signature, with an empty context, that the key pair of
/// `seed` makes on the SHA-512 digest of `msg`.
pub uninterp spec fn ph_signature_of(seed: Seq<u8>, msg: Seq<u8>) -> Seq<u8>;

/// Whether 32 bytes are the compressed encoding of a point on the curve.
pub uninterp spec fn point_decodes(key: Seq<u8>) -> bool;

/// Whether `sig` is a valid Ed25519 signature on `msg` under the encoded key `key`.
pub uninterp spec fn verifies(key: Seq<u8>, msg: Seq<u8>, sig: Seq<u8>) -> bool;

/// Whether `sig` is a valid Ed25519ph signature, with an empty context, on the
/// SHA-512 digest of `msg` under the encoded key `key`.
pub uninterp spec fn ph_verifies(key: Seq<u8>, msg: Seq<u8>, sig: Seq<u8>) -> bool;

/// Relies on `SecretKey::from_bytes`, which copies 32 bytes and cannot fail on
/// them, and on `PublicKey::from(&SecretKey)`, which derives the public key.
/// The key is the compression of a curve point, and the crate's documentation
/// decodes such a key again and verifies with it.
#[verifier::external_body]
pub(crate) fn derive_public(seed: &[u8; 32]) -> (r: [u8; 32])
    ensures
        r@ == public_of(seed@),
        point_decodes(r@),
{
    let secret = SecretKey::from_bytes(seed).expect("a seed has 32 bytes");
    ed25519_dalek::PublicKey::from(&secret).to_bytes()
}

/// Relies on `Keypair::sign`, deterministic Ed25519 signing, on the key pair
/// that `SecretKey::from_bytes` and `PublicKey::from` give for the seed. The
/// signature passes through `ed25519::Signature::from_bytes`, which unwraps
/// the check on the scalar's top bits, and the crate's documentation verifies
/// it under the key pair's public key.
#[verifier::external_body]
pub(crate) fn sign_message(seed: &[u8; 32], msg: &[u8]) -> (r: [u8; 64])
    ensures
        r@ == signature_of(seed@, msg@),
        scalar_bits_clear(r@),
        verifies(public_of(seed@), msg@, r@),
{
    let secret = SecretKey::from_bytes(seed).expect("a seed has 32 bytes");
    let public = ed25519_dalek::PublicKey::from(&secret);
    Keypair { secret, public }.sign(msg).to_bytes()
}

/// Relies on `Keypair::sign_prehashed` with no context, on the key pair that
/// `SecretKey::from_bytes` and `PublicKey::from` give for the seed and a
/// `Sha512` state fed with the message. Its only error is a context longer
/// than 255 bytes, so with none it succeeds. The signature passes through
/// `ed25519::Signature::from_bytes`, which unwraps the check on the scalar's
/// top bits, and the crate's documentation verifies it with
/// `verify_prehashed` on a second state fed with the same message.
#[verifier::external_body]
pub(crate) fn sign_prehashed(seed: &[u8; 32], msg: &[u8]) -> (r: Result<
    [u8; 64],
    ed25519_dalek::SignatureError,
>)
    ensures
        r is Ok,
        r is Ok ==> r->Ok_0@ == ph_signature_of(seed@, msg@),
        r is Ok ==> scalar_bits_clear(r->Ok_0@),
        r is Ok ==> ph_verifies(public_of(seed@), msg@, r->Ok_0@),
{
    let secret = SecretKey::from_bytes(seed).expect("a seed has 32 bytes");
    let public = ed25519_dalek::PublicKey::from(&secret);
    let prehash = Sha512::new().chain(msg);
    Keypair { secret, public }.sign_prehashed(prehash, None).map(|s| s.to_bytes())
}

/// Relies on `PublicKey::from_bytes`, which fails exactly when the bytes do
/// not decompress to a curve point.
#[verifier::external_body]
pub(crate) fn decode_point(key: &[u8; 32]) -> (r: Result<(), ed25519_dalek::SignatureError>)
    ensures
        r is Ok <==> point_decodes(key@),
{
    ed25519_dalek::PublicKey::from_bytes(key).map(|_| ())
}

/// Relies on `PublicKey::verify` (through `PublicKey::from_bytes`, whose error
/// it passes on). `Signature::from` panics unless the scalar's top bits are clear.
#[verifier::external_body]
pub(crate) fn verify_message(key: &[u8; 32], msg: &[u8], sig: &[u8; 64]) -> (r: Result<
    (),
    ed25519_dalek::SignatureError,
>)
    requires
        scalar_bits_clear(sig@),
    ensures
        r is Ok <==> verifies(key@, msg@, sig@),
{
    ed25519_dalek::PublicKey::from_bytes(key)?.verify(msg, &ed25519_dalek::Signature::from(*sig))
}

/// Relies on `PublicKey::verify_prehashed` with no context and a `Sha512`
/// state fed with the message (through `PublicKey::from_bytes`, whose error it
/// passes on). `Signature::from` panics unless the scalar's top bits are clear.
#[verifier::external_body]
pub(crate) fn verify_prehashed(key: &[u8; 32], msg: &[u8], sig: &[u8; 64]) -> (r: Result<
    (),
    ed25519_dalek::SignatureError,
>)
    requires
        scalar_bits_clear(sig@),
    ensures
        r is Ok <==> ph_verifies(key@, msg@, sig@),
{
    let sig = ed25519_dalek::Signature::from(*sig);
    let prehash = Sha512::new().chain(msg);
    ed25519_dalek::PublicKey::from_bytes(key)?.verify_prehashed(prehash, None, &sig)
}

} // verus!
