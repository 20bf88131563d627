use vstd::prelude::*;

use crate::error::Error;

verus! {

/// Length of a seed, in bytes.
pub const SEED_LEN: usize = 32;

/// Length of an encoded public key, in bytes.
pub const PUBLIC_KEY_LEN: usize = 32;

/// Length of an encoded signature, in bytes.
pub const SIGNATURE_LEN: usize = 64;

/// The bytes of the public key that `b` decodes to, if it has the length of one.
pub open spec fn decode_public_key(b: Seq<u8>) -> Option<Seq<u8>> {
    if b.len() == PUBLIC_KEY_LEN {
        Some(b)
    } else {
        None
    }
}

/// What decoding `b` as a signature gives: its bytes, unless the length is
/// wrong or the scalar half has one of its three highest bits set.
pub open spec fn decode_signature(b: Seq<u8>) -> Result<Seq<u8>, Error> {
    if b.len() != SIGNATURE_LEN {
        Err(Error::InvalidSignatureLength)
    } else if !scalar_bits_clear(b) {
        Err(Error::InvalidSignatureEncoding)
    } else {
        Ok(b)
    }
}

/// Copies a slice of exactly `N` bytes into an array.
fn copy_array<const N: usize>(b: &[u8]) -> (r: [u8; N])
    requires
        b@.len() == N,
    ensures
        r@ == b@,
{
    let mut a: [u8; N] = [0u8; N];
    let mut i: usize = 0;
    while i < N
        invariant
            i <= N,
            b@.len() == N,
            a@.len() == N,
            forall|j: int| 0 <= j < i ==> a@[j] == b@[j],
        decreases N - i,
    {
        a[i] = b[i];
        i = i + 1;
    }
    assert(a@ =~= b@);
    a
}

/// The 32 secret bytes from which a signing key pair is derived.
pub struct Seed {
    bytes: [u8; 32],
}

impl View for Seed {
    type V = Seq<u8>;

    closed spec fn view(&self) -> Seq<u8> {
        self.bytes@
    }
}

impl Seed {
    /// Takes a seed from its bytes; a length other than 32 is refused.
    pub fn from_bytes(b: &[u8]) -> (r: Result<Seed, Error>)
        ensures
            b@.len() == SEED_LEN <==> r is Ok,
            r matches Ok(s) ==> s@ == b@,
            r matches Err(e) ==> e == Error::InvalidKeyLength,
    {
        if b.len() != SEED_LEN {
            return Err(Error::InvalidKeyLength);
        }
        let bytes: [u8; 32] = copy_array(b);
        Ok(Seed { bytes })
    }

    /// Takes a seed from an array of the right length.
    pub fn new(bytes: [u8; 32]) -> (r: Seed)
        ensures
            r@ == bytes@,
    {
        Seed { bytes }
    }

    /// The seed's bytes.
    pub fn as_bytes(&self) -> (r: &[u8; 32])
        ensures
            r@ == self@,
    {
        &self.bytes
    }
}

/// An encoded Ed25519 public key: 32 bytes, the compressed form of a curve point.
#[derive(Clone, Copy, Debug, PartialEq, Eq)]
pub struct PublicKey {
    bytes: [u8; 32],
}

impl View for PublicKey {
    type V = Seq<u8>;

    closed spec fn view(&self) -> Seq<u8> {
        self.bytes@
    }
}

impl PublicKey {
    /// Decodes a public key from its bytes; a length other than 32 is refused.
    pub fn from_bytes(b: &[u8]) -> (r: Result<PublicKey, Error>)
        ensures
            r is Ok <==> decode_public_key(b@) is Some,
            r matches Ok(k) ==> decode_public_key(b@) == Some(k@),
            r matches Err(e) ==> e == Error::InvalidKeyLength,
    {
        if b.len() != PUBLIC_KEY_LEN {
            return Err(Error::InvalidKeyLength);
        }
        let bytes: [u8; 32] = copy_array(b);
        Ok(PublicKey { bytes })
    }

    /// Takes a public key from an array of the right length.
    pub fn new(bytes: [u8; 32]) -> (r: PublicKey)
        ensures
            r@ == bytes@,
    {
        PublicKey { bytes }
    }

    /// The key's encoding.
    pub fn as_bytes(&self) -> (r: &[u8; 32])
        ensures
            r@ == self@,
    {
        &self.bytes
    }

    /// The key's encoding, by value.
    pub fn to_bytes(&self) -> (r: [u8; 32])
        ensures
            r@ == self@,
    {
        self.bytes
    }
}

/// Whether the last byte of an encoded signature leaves the three highest bits
/// of the scalar clear, as a reduced scalar must.
pub open spec fn scalar_bits_clear(sig: Seq<u8>) -> bool {
    sig.len() == SIGNATURE_LEN && sig[SIGNATURE_LEN - 1] & 0xe0u8 == 0
}

/// An encoded Ed25519 signature: 64 bytes, the point R followed by the scalar
/// s, whose three highest bits are clear.
#[derive(Copy, Debug, PartialEq, Eq)]
pub struct Signature {
    bytes: [u8; 64],
}

impl View for Signature {
    type V = Seq<u8>;

    closed spec fn view(&self) -> Seq<u8> {
        self.bytes@
    }
}

impl Clone for Signature {
    fn clone(&self) -> (r: Signature)
        ensures
            r@ == self@,
    {
        *self
    }
}

impl Signature {
    #[verifier::type_invariant]
    closed spec fn scalar_is_reduced(self) -> bool {
        scalar_bits_clear(self.bytes@)
    }

    /// Decodes a signature from its bytes: a length other than 64 is refused,
    /// and so is a scalar with any of its three highest bits set.
    pub fn from_bytes(b: &[u8]) -> (r: Result<Signature, Error>)
        ensures
            match r {
                Ok(s) => decode_signature(b@) == Ok::<Seq<u8>, Error>(s@),
                Err(e) => decode_signature(b@) == Err::<Seq<u8>, Error>(e),
            },
    {
        if b.len() != SIGNATURE_LEN {
            return Err(Error::InvalidSignatureLength);
        }
        if b[63] & 0xe0u8 != 0 {
            return Err(Error::InvalidSignatureEncoding);
        }
        let bytes: [u8; 64] = copy_array(b);
        Ok(Signature { bytes })
    }

    /// Takes a signature from an array, with the same check on the scalar as
    /// `from_bytes`.
    pub fn new(bytes: [u8; 64]) -> (r: Result<Signature, Error>)
        ensures
            match r {
                Ok(s) => decode_signature(bytes@) == Ok::<Seq<u8>, Error>(s@),
                Err(e) => decode_signature(bytes@) == Err::<Seq<u8>, Error>(e),
            },
    {
        if bytes[63] & 0xe0u8 != 0 {
            return Err(Error::InvalidSignatureEncoding);
        }
        Ok(Signature { bytes })
    }

    /// Takes a signature from an array already known to be well-formed.
    pub(crate) fn from_checked(bytes: [u8; 64]) -> (r: Signature)
        requires
            scalar_bits_clear(bytes@),
        ensures
            r@ == bytes@,
    {
        Signature { bytes }
    }

    /// The signature's encoding.
    pub fn as_bytes(&self) -> (r: &[u8; 64])
        ensures
            r@ == self@,
            scalar_bits_clear(r@),
    {
        proof {
            use_type_invariant(self);
        }
        &self.bytes
    }

    /// The signature's encoding, by value; decoding it gives the same
    /// signature back.
    pub fn to_bytes(&self) -> (r: [u8; 64])
        ensures
            r@ == self@,
            decode_signature(r@) == Ok::<Seq<u8>, Error>(self@),
    {
        proof {
            use_type_invariant(self);
        }
        self.bytes
    }
}

/// Decoding the encoding of a public key gives the same key back, byte for byte.
pub proof fn public_key_round_trip(k: PublicKey)
    ensures
        decode_public_key(k@) == Some(k@),
{
}

/// Decoding keeps every byte: whatever decodes as a signature is that
/// signature's encoding, so encoding it again gives the same bytes.
pub proof fn signature_round_trip(b: Seq<u8>)
    ensures
        decode_signature(b) is Ok ==> decode_signature(b) == Ok::<Seq<u8>, Error>(b),
{
}

} // verus!
