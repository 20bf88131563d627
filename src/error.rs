use vstd::prelude::*;

verus! {

/// What can go wrong when keys or signatures are decoded, or a signature is checked.
#[derive(Clone, Copy, Debug, PartialEq, Eq, Structural)]
pub enum Error {
    /// Key material of the wrong length.
    InvalidKeyLength,
    /// A public key that is not the encoding of a curve point.
    InvalidKeyEncoding,
    /// A signature of the wrong length.
    InvalidSignatureLength,
    /// A signature whose scalar has any of its three highest bits set,
    /// refused when the signature is decoded.
    InvalidSignatureEncoding,
    /// A signature that does not verify; the one error of verification.
    SignatureInvalid,
}

} // verus!
