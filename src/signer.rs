//! RSA-SHA256 signing of a signing string and the `Signature` header value.
use vstd::prelude::*;
use vstd::string::*;

use crate::canon::{canonical_string, gen_signing_string, join_names, join_with, names_of, path_of};
use crate::headers::lowered_map;
use crate::model::{PrivateKey, Request, SignError};
use crate::outside::{
    at_least_two, base64_encode, base64_std, decode_pkcs1_pem, pkcs1_fields, rsa_sign_sha256,
    rsa_signature, sha256, sha256_of, strip_zeros,
};

verus! {

/// The value of the `Signature` header:
/// `keyId="{key_id}",algorithm="rsa-sha256",headers="{names}",signature="{signature}"`.
pub open spec fn signature_header_text(
    key_id: Seq<char>,
    names: Seq<Seq<char>>,
    signature: Seq<char>,
) -> Seq<char> {
    "keyId=\""@ + key_id + "\",algorithm=\"rsa-sha256\",headers=\""@ + join_with(names, ' ')
        + "\",signature=\""@ + signature + "\""@
}

/// The smallest modulus, in bytes, that RSASSA-PKCS1-v1_5 with SHA-256
/// can sign with: 11 bytes of padding, 19 of digest prefix, 32 of digest.
pub const MIN_MODULUS_BYTES: usize = 62;

/// Decoded PKCS#1 fields that make a usable two-prime signing key: both
/// primes at least 2 and a modulus long enough for a SHA-256 signature.
pub open spec fn key_usable(f: (Seq<u8>, Seq<u8>, Seq<u8>, Seq<u8>, Seq<u8>, bool)) -> bool {
    &&& f.5
    &&& at_least_two(f.3)
    &&& at_least_two(f.4)
    &&& strip_zeros(f.0).len() >= MIN_MODULUS_BYTES
}

/// The base64 RSASSA-PKCS1-v1_5 / SHA-256 signature over the UTF-8 bytes of
/// `signing`, made with the key in `pem`.
pub open spec fn signature_of(signing: Seq<char>, pem: Seq<char>) -> Result<Seq<char>, SignError> {
    match pkcs1_fields(pem) {
        None => Err(SignError::InvalidKey),
        Some(f) => if !key_usable(f) {
            Err(SignError::InvalidKey)
        } else {
            match rsa_signature((f.0, f.1, f.2, f.3, f.4), sha256_of(signing)) {
                Some(sig) => Ok(base64_std(sig)),
                None => Err(SignError::SigningError),
            }
        },
    }
}

/// The index of the first non-zero byte (the length where there is none).
fn first_nonzero(b: &Vec<u8>) -> (i: usize)
    ensures
        i <= b@.len(),
        strip_zeros(b@) == b@.subrange(i as int, b@.len() as int),
{
    let mut i: usize = 0;
    assert(b@.subrange(0, b@.len() as int) =~= b@);
    while i < b.len() && b[i] == 0
        invariant
            0 <= i <= b@.len(),
            strip_zeros(b@) == strip_zeros(b@.subrange(i as int, b@.len() as int)),
        decreases b@.len() - i,
    {
        assert(b@.subrange(i as int, b@.len() as int).drop_first() =~= b@.subrange(
            i + 1,
            b@.len() as int,
        ));
        i = i + 1;
    }
    i
}

/// Whether a big-endian number is at least 2.
fn is_at_least_two(b: &Vec<u8>) -> (r: bool)
    ensures
        r == at_least_two(b@),
{
    let i = first_nonzero(b);
    let n = b.len() - i;
    n >= 2 || (n == 1 && b[i] >= 2)
}

/// What `sign` gives: the signature and the `Signature` header value.
pub open spec fn signed_text(signing: Seq<char>, key: PrivateKey, names: Seq<Seq<char>>) -> Result<
    (Seq<char>, Seq<char>),
    SignError,
> {
    match signature_of(signing, key.private_key_pem@) {
        Err(e) => Err(e),
        Ok(b) => Ok((b, signature_header_text(key.key_id@, names, b))),
    }
}

/// What `sign_to_request` gives: the signing string, the signature and the
/// `Signature` header value, for a request with the given method, URL and
/// lowercase-keyed headers.
pub open spec fn signed_parts(
    names: Seq<Seq<char>>,
    method: Seq<char>,
    path: Option<Seq<char>>,
    headers: Map<Seq<char>, Seq<char>>,
    key: PrivateKey,
) -> Result<(Seq<char>, Seq<char>, Seq<char>), SignError> {
    match canonical_string(names, method, path, headers) {
        Err(e) => Err(e),
        Ok(s) => match signed_text(s, key, names) {
            Err(e) => Err(e),
            Ok(p) => Ok((s, p.0, p.1)),
        },
    }
}

/// The views of a pair of texts, or the error.
pub open spec fn pair_view(r: Result<(String, String), SignError>) -> Result<
    (Seq<char>, Seq<char>),
    SignError,
> {
    match r {
        Ok(p) => Ok((p.0@, p.1@)),
        Err(e) => Err(e),
    }
}

/// The views of three texts, or the error.
pub open spec fn triple_view(r: Result<(String, String, String), SignError>) -> Result<
    (Seq<char>, Seq<char>, Seq<char>),
    SignError,
> {
    match r {
        Ok(p) => Ok((p.0@, p.1@, p.2@)),
        Err(e) => Err(e),
    }
}

/// Sign a signing string with `key` (RSASSA-PKCS1-v1_5 over its SHA-256),
/// and render the `Signature` header that lists `include_headers`.
pub fn sign(signing_string: &str, key: &PrivateKey, include_headers: &Vec<&str>) -> (r: Result<
    (String, String),
    SignError,
>)
    ensures
        pair_view(r) == signed_text(signing_string@, *key, names_of(include_headers@)),
{
    let fields = match decode_pkcs1_pem(key.private_key_pem.as_str()) {
        None => return Err(SignError::InvalidKey),
        Some(f) => f,
    };
    if !fields.two_prime || !is_at_least_two(&fields.prime1) || !is_at_least_two(&fields.prime2) {
        return Err(SignError::InvalidKey);
    }
    let m = first_nonzero(&fields.modulus);
    if fields.modulus.len() - m < MIN_MODULUS_BYTES {
        return Err(SignError::InvalidKey);
    }
    let digest = sha256(signing_string);
    match rsa_sign_sha256(&fields, &digest) {
        None => Err(SignError::SigningError),
        Some(sig) => {
            let encoded = base64_encode(&sig);
            let names = join_names(include_headers);
            let mut header = "keyId=\"".to_owned();
            header.append(key.key_id.as_str());
            header.append("\",algorithm=\"rsa-sha256\",headers=\"");
            header.append(names.as_str());
            header.append("\",signature=\"");
            header.append(encoded.as_str());
            header.append("\"");
            Ok((encoded, header))
        },
    }
}

/// Derive the signing string of `request` over `include_headers`, sign it
/// with `key`, and render the `Signature` header.
pub fn sign_to_request(request: &Request, key: &PrivateKey, include_headers: &Vec<&str>) -> (r:
    Result<(String, String, String), SignError>)
    ensures
        triple_view(r) == signed_parts(
            names_of(include_headers@),
            request.method@,
            path_of(request.url@),
            lowered_map(request.headers@),
            *key,
        ),
{
    let signing_string = match gen_signing_string(request, include_headers) {
        Err(e) => return Err(e),
        Ok(s) => s,
    };
    match sign(signing_string.as_str(), key, include_headers) {
        Err(e) => Err(e),
        Ok((signature, header)) => Ok((signing_string, signature, header)),
    }
}

} // verus!
