//! Signing with a key pair derived from a seed, over whole messages and over
//! pre-hashed digests.

use vstd::prelude::*;

use crate::backend::{
    derive_public, ph_signature_of, ph_verifies, point_decodes, public_of, sign_message,
    sign_prehashed, signature_of, verifies,
};
use crate::error::Error;
use crate::keys::{PublicKey, Seed, Signature};

verus! {

/// Ed25519 signer: holds the seed and the public key derived from it.
pub struct Ed25519Signer {
    seed: [u8; 32],
    public: [u8; 32],
}

impl Ed25519Signer {
    #[verifier::type_invariant]
    closed spec fn key_pair_matches(self) -> bool {
        self.public@ == public_of(self.seed@) && point_decodes(self.public@)
    }

    /// The seed that the key pair was derived from.
    pub closed spec fn seed(&self) -> Seq<u8> {
        self.seed@
    }

    /// Derives the key pair of a seed.
    pub fn from_seed(seed: &Seed) -> (r: Ed25519Signer)
        ensures
            r.seed() == seed@,
    {
        let bytes = *seed.as_bytes();
        let public = derive_public(&bytes);
        Ed25519Signer { seed: bytes, public }
    }

    /// Derives the key pair of a seed given as bytes; a length other than 32
    /// is refused.
    pub fn from_seed_bytes(b: &[u8]) -> (r: Result<Ed25519Signer, Error>)
        ensures
            b@.len() == 32 <==> r is Ok,
            r matches Ok(s) ==> s.seed() == b@,
            r matches Err(e) ==> e == Error::InvalidKeyLength,
    {
        let seed = Seed::from_bytes(b)?;
        Ok(Ed25519Signer::from_seed(&seed))
    }

    /// The public key of the key pair; it decodes to a curve point.
    pub fn public_key(&self) -> (r: PublicKey)
        ensures
            r@ == public_of(self.seed()),
            point_decodes(r@),
    {
        proof {
            use_type_invariant(self);
        }
        PublicKey::new(self.public)
    }

    /// Signs a message; any byte sequence is accepted. The signature verifies
    /// on that message under the signer's public key.
    pub fn sign(&self, msg: &[u8]) -> (r: Signature)
        ensures
            r@ == signature_of(self.seed(), msg@),
            verifies(public_of(self.seed()), msg@, r@),
    {
        Signature::from_checked(sign_message(&self.seed, msg))
    }
}

/// Ed25519ph signer: signs the 64-byte SHA-512 digest of a message rather than
/// the message itself. The domain-separation context is always empty; no
/// other context can be given.
pub struct Ed25519PhSigner {
    seed: [u8; 32],
    public: [u8; 32],
}

impl Ed25519PhSigner {
    #[verifier::type_invariant]
    closed spec fn key_pair_matches(self) -> bool {
        self.public@ == public_of(self.seed@) && point_decodes(self.public@)
    }

    /// The seed that the key pair was derived from.
    pub closed spec fn seed(&self) -> Seq<u8> {
        self.seed@
    }

    /// Derives the key pair of a seed.
    pub fn from_seed(seed: &Seed) -> (r: Ed25519PhSigner)
        ensures
            r.seed() == seed@,
    {
        let bytes = *seed.as_bytes();
        let public = derive_public(&bytes);
        Ed25519PhSigner { seed: bytes, public }
    }

    /// Derives the key pair of a seed given as bytes; a length other than 32
    /// is refused.
    pub fn from_seed_bytes(b: &[u8]) -> (r: Result<Ed25519PhSigner, Error>)
        ensures
            b@.len() == 32 <==> r is Ok,
            r matches Ok(s) ==> s.seed() == b@,
            r matches Err(e) ==> e == Error::InvalidKeyLength,
    {
        let seed = Seed::from_bytes(b)?;
        Ok(Ed25519PhSigner::from_seed(&seed))
    }

    /// The public key of the key pair; it decodes to a curve point.
    pub fn public_key(&self) -> (r: PublicKey)
        ensures
            r@ == public_of(self.seed()),
            point_decodes(r@),
    {
        proof {
            use_type_invariant(self);
        }
        PublicKey::new(self.public)
    }

    /// Signs the SHA-512 digest of a message with Ed25519ph; any byte
    /// sequence is accepted. The signature verifies, as Ed25519ph, on that
    /// message under the signer's public key.
    ///
    /// The prehash is always SHA-512 of the message, the one RFC 8032 fixes
    /// for Ed25519ph: a digest computed by another hash function, or apart
    /// from the message, cannot be handed in.
    pub fn sign(&self, msg: &[u8]) -> (r: Signature)
        ensures
            r@ == ph_signature_of(self.seed(), msg@),
            ph_verifies(public_of(self.seed()), msg@, r@),
    {
        Signature::from_checked(sign_prehashed(&self.seed, msg).unwrap())
    }
}

/// Signers made from equal seeds, plain or pre-hashed, derive one public key
/// and make equal signatures on equal messages: everything they hand out is
/// fixed by the seed.
pub proof fn signing_is_determined_by_seed(
    a: Ed25519Signer,
    b: Ed25519Signer,
    c: Ed25519PhSigner,
    d: Ed25519PhSigner,
    msg: Seq<u8>,
)
    requires
        a.seed() == b.seed(),
        c.seed() == d.seed(),
    ensures
        public_of(a.seed()) == public_of(b.seed()),
        public_of(c.seed()) == public_of(d.seed()),
        signature_of(a.seed(), msg) == signature_of(b.seed(), msg),
        ph_signature_of(c.seed(), msg) == ph_signature_of(d.seed(), msg),
{
}

} // verus!
