//! Ed25519 signing and verification over ed25519-dalek, with the key and
//! signature encodings checked at the boundary.

mod backend;
mod error;
mod keys;
mod signer;
mod verify;

pub use error::Error;
pub use keys::{
    decode_public_key, decode_signature, public_key_round_trip, scalar_bits_clear,
    signature_round_trip, PublicKey, Seed, Signature, PUBLIC_KEY_LEN, SEED_LEN, SIGNATURE_LEN,
};
pub use signer::{signing_is_determined_by_seed, Ed25519PhSigner, Ed25519Signer};
pub use backend::{ph_signature_of, ph_verifies, point_decodes, public_of, signature_of, verifies};
pub use verify::{Ed25519PhVerifier, Ed25519Verifier};
