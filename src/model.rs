//! The values that the library takes and hands back.
use vstd::prelude::*;

verus! {

/// An RSA private key in PKCS#1 PEM form, with the identifier under which
/// receivers find the matching public key.
pub struct PrivateKey {
    pub private_key_pem: String,
    pub key_id: String,
}

/// An HTTP request to be signed.
#[derive(Clone, Debug)]
pub struct Request {
    pub url: String,
    pub method: String,
    pub headers: Vec<(String, String)>,
}

/// A request together with what was derived from it: the text that was
/// signed, the base64 signature, and the value of the `Signature` header.
#[derive(Clone, Debug)]
pub struct SignedRequest {
    pub request: Request,
    pub signing_string: String,
    pub signature: String,
    pub signature_header: String,
}

/// Why a request could not be built or signed.
#[derive(PartialEq, Eq, Structural, Clone, Copy, Debug)]
pub enum SignError {
    /// The URL does not parse as an absolute URL with a host.
    InvalidUrl,
    /// A header named in the signed list is absent from the request.
    MissingHeader,
    /// The PEM text does not decode as a PKCS#1 RSA private key.
    InvalidKey,
    /// The RSA signing operation failed.
    SigningError,
}

} // verus!
