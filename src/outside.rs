//! Calls into std and outside crates that the rest of the library relies on.
//! Each item states only what the called function's source or documentation
//! shows; results that take pages to state are given a name.
use vstd::prelude::*;

use base64::Engine;
use rsa::pkcs1::der::Document;
use rsa::pkcs1::DecodeRsaPrivateKey;

verus! {

/// What `str::to_lowercase` gives for a text (Unicode lowercase mapping).
pub uninterp spec fn lower_of(s: Seq<char>) -> Seq<char>;

/// Relies on `str::to_lowercase`: the result depends on the characters alone.
#[verifier::external_body]
pub(crate) fn to_lower(s: &str) -> (r: String)
    ensures
        r@ == lower_of(s@),
{
    s.to_lowercase()
}

/// SHA-256 of the UTF-8 encoding of a text.
pub uninterp spec fn sha256_of(s: Seq<char>) -> Seq<u8>;

/// Relies on `sha2::Sha256::digest`: the 32-byte SHA-256 of the UTF-8 bytes of `s`.
#[verifier::external_body]
pub(crate) fn sha256(s: &str) -> (r: Vec<u8>)
    ensures
        r@ == sha256_of(s@),
        r@.len() == 32,
{
    <sha2::Sha256 as sha2::Digest>::digest(s.as_bytes()).to_vec()
}

/// The character of a 6-bit value in the standard base64 alphabet.
pub open spec fn base64_digit(v: int) -> char {
    if v < 26 {
        (('A' as int) + v) as char
    } else if v < 52 {
        (('a' as int) + v - 26) as char
    } else if v < 62 {
        (('0' as int) + v - 52) as char
    } else if v == 62 {
        '+'
    } else {
        '/'
    }
}

/// Standard base64 (RFC 4648 alphabet, `=` padding) of a byte sequence.
pub open spec fn base64_std(b: Seq<u8>) -> Seq<char>
    decreases b.len(),
{
    if b.len() == 0 {
        Seq::empty()
    } else if b.len() == 1 {
        seq![base64_digit((b[0] as int) / 4), base64_digit(((b[0] as int) % 4) * 16), '=', '=']
    } else if b.len() == 2 {
        seq![
            base64_digit((b[0] as int) / 4),
            base64_digit(((b[0] as int) % 4) * 16 + (b[1] as int) / 16),
            base64_digit(((b[1] as int) % 16) * 4),
            '=',
        ]
    } else {
        seq![
            base64_digit((b[0] as int) / 4),
            base64_digit(((b[0] as int) % 4) * 16 + (b[1] as int) / 16),
            base64_digit(((b[1] as int) % 16) * 4 + (b[2] as int) / 64),
            base64_digit((b[2] as int) % 64),
        ] + base64_std(b.subrange(3, b.len() as int))
    }
}

/// Relies on `base64::engine::general_purpose::STANDARD.encode`.
#[verifier::external_body]
pub(crate) fn base64_encode(b: &Vec<u8>) -> (r: String)
    ensures
        r@ == base64_std(b@),
{
    base64::engine::general_purpose::STANDARD.encode(b)
}

/// Whether `url::Url::parse` accepts a text.
pub uninterp spec fn url_parses(s: Seq<char>) -> bool;

/// The serialization (`url::Url::as_str`) of a text that parses.
pub uninterp spec fn url_href(s: Seq<char>) -> Seq<char>;

/// The host (`url::Url::host_str`) of a text that parses.
pub uninterp spec fn url_host(s: Seq<char>) -> Option<Seq<char>>;

/// The path (`url::Url::path`) of a text that parses: it stops before the
/// query and the fragment.
pub uninterp spec fn url_path(s: Seq<char>) -> Seq<char>;

/// The parts of a parsed URL that the library reads.
pub(crate) struct UrlParts {
    pub href: String,
    pub host: Option<String>,
    pub path: String,
}

/// Relies on `url::Url::parse` and, on its result, `as_str`, `host_str` and `path`.
#[verifier::external_body]
pub(crate) fn parse_url(s: &str) -> (r: Option<UrlParts>)
    ensures
        r is Some <==> url_parses(s@),
        r matches Some(p) ==> p.href@ == url_href(s@) && p.path@ == url_path(s@) && (match (
            p.host,
            url_host(s@),
        ) {
            (Some(h), Some(g)) => h@ == g,
            (None, None) => true,
            _ => false,
        }),
{
    let u = url::Url::parse(s).ok()?;
    Some(
        UrlParts {
            href: u.as_str().to_string(),
            host: u.host_str().map(|h| h.to_string()),
            path: u.path().to_string(),
        },
    )
}

/// The fields of a PKCS#1 `RSAPrivateKey` as `rsa::pkcs1::RsaPrivateKeyDocument::from_pkcs1_pem`
/// decodes them from a PEM text: modulus, public exponent, private exponent,
/// first and second prime (big-endian bytes), and whether the version is
/// two-prime; `None` where the text does not decode.
pub uninterp spec fn pkcs1_fields(pem: Seq<char>) -> Option<
    (Seq<u8>, Seq<u8>, Seq<u8>, Seq<u8>, Seq<u8>, bool),
>;

/// The decoded fields of an RSA private key.
pub(crate) struct KeyFields {
    pub modulus: Vec<u8>,
    pub public_exponent: Vec<u8>,
    pub private_exponent: Vec<u8>,
    pub prime1: Vec<u8>,
    pub prime2: Vec<u8>,
    pub two_prime: bool,
}

/// Relies on `rsa::pkcs1::RsaPrivateKeyDocument::from_pkcs1_pem` and its
/// `decode`, which reads the fields without checking them.
#[verifier::external_body]
pub(crate) fn decode_pkcs1_pem(pem: &str) -> (r: Option<KeyFields>)
    ensures
        r is Some <==> pkcs1_fields(pem@) is Some,
        r matches Some(f) ==> pkcs1_fields(pem@) == Some(
            (
                f.modulus@,
                f.public_exponent@,
                f.private_exponent@,
                f.prime1@,
                f.prime2@,
                f.two_prime,
            ),
        ),
{
    let doc = rsa::pkcs1::RsaPrivateKeyDocument::from_pkcs1_pem(pem).ok()?;
    let k = doc.decode();
    Some(
        KeyFields {
            modulus: k.modulus.as_bytes().to_vec(),
            public_exponent: k.public_exponent.as_bytes().to_vec(),
            private_exponent: k.private_exponent.as_bytes().to_vec(),
            prime1: k.prime1.as_bytes().to_vec(),
            prime2: k.prime2.as_bytes().to_vec(),
            two_prime: match k.version() {
                rsa::pkcs1::Version::TwoPrime => true,
                rsa::pkcs1::Version::Multi => false,
            },
        },
    )
}

/// Big-endian bytes without their leading zero bytes.
pub open spec fn strip_zeros(b: Seq<u8>) -> Seq<u8>
    decreases b.len(),
{
    if b.len() > 0 && b[0] == 0 {
        strip_zeros(b.drop_first())
    } else {
        b
    }
}

/// A big-endian number that is at least 2.
pub open spec fn at_least_two(b: Seq<u8>) -> bool {
    strip_zeros(b).len() >= 2 || (strip_zeros(b).len() == 1 && strip_zeros(b)[0] >= 2)
}

/// The RSASSA-PKCS1-v1_5 signature (`rsa::RsaPrivateKey::sign` with a
/// SHA-256 padding scheme, no random source) that the key with these
/// modulus, exponents and primes makes over a 32-byte digest; `None` where
/// the signing operation fails.
pub uninterp spec fn rsa_signature(
    key: (Seq<u8>, Seq<u8>, Seq<u8>, Seq<u8>, Seq<u8>),
    digest: Seq<u8>,
) -> Option<Seq<u8>>;

/// Relies on `rsa::RsaPrivateKey::from_components` (which precomputes
/// `d mod (p - 1)` for each prime, hence primes of at least 2) and on
/// `rsa::RsaPrivateKey::sign` with `PaddingScheme::new_pkcs1v15_sign(Some(Hash::SHA2_256))`,
/// which refuses a digest whose length is not that of SHA-256.
#[verifier::external_body]
pub(crate) fn rsa_sign_sha256(f: &KeyFields, digest: &Vec<u8>) -> (r: Option<Vec<u8>>)
    requires
        at_least_two(f.prime1@),
        at_least_two(f.prime2@),
        digest@.len() == 32,
    ensures
        match r {
            Some(sig) => rsa_signature(
                (f.modulus@, f.public_exponent@, f.private_exponent@, f.prime1@, f.prime2@),
                digest@,
            ) == Some(sig@),
            None => rsa_signature(
                (f.modulus@, f.public_exponent@, f.private_exponent@, f.prime1@, f.prime2@),
                digest@,
            ) is None,
        },
{
    let key = rsa::RsaPrivateKey::from_components(
        rsa::BigUint::from_bytes_be(&f.modulus),
        rsa::BigUint::from_bytes_be(&f.public_exponent),
        rsa::BigUint::from_bytes_be(&f.private_exponent),
        vec![rsa::BigUint::from_bytes_be(&f.prime1), rsa::BigUint::from_bytes_be(&f.prime2)],
    );
    let padding = rsa::PaddingScheme::new_pkcs1v15_sign(Some(rsa::Hash::SHA2_256));
    key.sign(padding, digest).ok()
}

/// Relies on `chrono::Utc::now().to_rfc2822()`: the current time. Nothing is
/// promised of the text, which changes from call to call.
#[verifier::external_body]
pub(crate) fn now_rfc2822() -> (r: String) {
    chrono::Utc::now().to_rfc2822()
}

} // verus!
