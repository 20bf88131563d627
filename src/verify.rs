//! Checking signatures against a decoded public key, over whole messages and
//! over pre-hashed messages.

use vstd::prelude::*;

use crate::backend::{
    decode_point, ph_verifies, point_decodes, verifies, verify_message, verify_prehashed,
};
use crate::error::Error;
use crate::keys::{PublicKey, Signature};

verus! {

/// Ed25519 verifier: holds a public key that decodes to a curve point.
#[derive(Debug, PartialEq, Eq)]
pub struct Ed25519Verifier {
    key: [u8; 32],
}

impl Clone for Ed25519Verifier {
    fn clone(&self) -> (r: Ed25519Verifier)
        ensures
            r.key() == self.key(),
    {
        proof {
            use_type_invariant(self);
        }
        Ed25519Verifier { key: self.key }
    }
}

impl Ed25519Verifier {
    #[verifier::type_invariant]
    closed spec fn key_is_point(self) -> bool {
        point_decodes(self.key@)
    }

    /// The encoded public key held.
    pub closed spec fn key(&self) -> Seq<u8> {
        self.key@
    }

    /// Takes a public key; one that does not encode a curve point is refused.
    pub fn from_public_key(pk: &PublicKey) -> (r: Result<Ed25519Verifier, Error>)
        ensures
            r is Ok <==> point_decodes(pk@),
            r matches Ok(v) ==> v.key() == pk@,
            r matches Err(e) ==> e == Error::InvalidKeyEncoding,
    {
        let key = pk.to_bytes();
        match decode_point(&key) {
            Ok(()) => Ok(Ed25519Verifier { key }),
            Err(_) => Err(Error::InvalidKeyEncoding),
        }
    }

    /// The public key held; it decodes to a curve point.
    pub fn public_key(&self) -> (r: PublicKey)
        ensures
            r@ == self.key(),
            point_decodes(r@),
    {
        proof {
            use_type_invariant(self);
        }
        PublicKey::new(self.key)
    }

    /// Checks a signature on a message. Every failure, whatever its cause, is
    /// `SignatureInvalid`.
    pub fn verify(&self, msg: &[u8], sig: &Signature) -> (r: Result<(), Error>)
        ensures
            r is Ok <==> verifies(self.key(), msg@, sig@),
            r is Err ==> r->Err_0 == Error::SignatureInvalid,
    {
        match verify_message(&self.key, msg, sig.as_bytes()) {
            Ok(()) => Ok(()),
            Err(_) => Err(Error::SignatureInvalid),
        }
    }
}

/// Ed25519ph verifier: checks signatures made on the SHA-512 digest of a
/// message, with an empty domain-separation context.
#[derive(Debug, PartialEq, Eq)]
pub struct Ed25519PhVerifier {
    key: [u8; 32],
}

impl Clone for Ed25519PhVerifier {
    fn clone(&self) -> (r: Ed25519PhVerifier)
        ensures
            r.key() == self.key(),
    {
        proof {
            use_type_invariant(self);
        }
        Ed25519PhVerifier { key: self.key }
    }
}

impl Ed25519PhVerifier {
    #[verifier::type_invariant]
    closed spec fn key_is_point(self) -> bool {
        point_decodes(self.key@)
    }

    /// The encoded public key held.
    pub closed spec fn key(&self) -> Seq<u8> {
        self.key@
    }

    /// Takes a public key; one that does not encode a curve point is refused.
    pub fn from_public_key(pk: &PublicKey) -> (r: Result<Ed25519PhVerifier, Error>)
        ensures
            r is Ok <==> point_decodes(pk@),
            r matches Ok(v) ==> v.key() == pk@,
            r matches Err(e) ==> e == Error::InvalidKeyEncoding,
    {
        let key = pk.to_bytes();
        match decode_point(&key) {
            Ok(()) => Ok(Ed25519PhVerifier { key }),
            Err(_) => Err(Error::InvalidKeyEncoding),
        }
    }

    /// The public key held; it decodes to a curve point.
    pub fn public_key(&self) -> (r: PublicKey)
        ensures
            r@ == self.key(),
            point_decodes(r@),
    {
        proof {
            use_type_invariant(self);
        }
        PublicKey::new(self.key)
    }

    /// Checks an Ed25519ph signature on the SHA-512 digest of a message. Every
    /// failure, whatever its cause, is `SignatureInvalid`. As with the signer,
    /// the prehash is always SHA-512 of the message.
    pub fn verify(&self, msg: &[u8], sig: &Signature) -> (r: Result<(), Error>)
        ensures
            r is Ok <==> ph_verifies(self.key(), msg@, sig@),
            r is Err ==> r->Err_0 == Error::SignatureInvalid,
    {
        match verify_prehashed(&self.key, msg, sig.as_bytes()) {
            Ok(()) => Ok(()),
            Err(_) => Err(Error::SignatureInvalid),
        }
    }
}

} // verus!
