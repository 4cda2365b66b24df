//! HTTP Signatures (draft-cavage, RSA-SHA256) for outbound requests:
//! building GET and POST requests, deriving the signing string from a fixed
//! list of headers, signing it, and rendering the `Signature` header value.
use vstd::prelude::*;

pub mod canon;
pub mod headers;
pub mod laws;
pub mod model;
pub mod outside;
pub mod request;
pub mod signer;

pub use canon::{gen_signing_string, signing_string_of};
pub use headers::{lc_object_key, lowercase_name, object_assign_with_lc_key, HeaderMap};
pub use model::{PrivateKey, Request, SignError, SignedRequest};
pub use request::{
    build_get_request, build_get_request_at, build_post_request, build_post_request_at,
    create_signed_get, create_signed_get_at, create_signed_post, create_signed_post_at,
    digest_header,
};
pub use signer::{sign, sign_to_request};

verus! {

} // verus!
