//! Building GET and POST requests and signing them with a fixed profile of
//! headers.
use vstd::prelude::*;
use vstd::string::*;

use crate::canon::{names_of, opt_view, signing_string_of};
use crate::headers::{
    lower_name, lowered_map, normalized, object_assign_with_lc_key, pairs_map, plain_lower,
    HeaderMap,
};
use crate::model::{PrivateKey, Request, SignError, SignedRequest};
use crate::outside::{
    base64_encode, base64_std, now_rfc2822, parse_url, sha256, sha256_of, url_host, url_href,
    url_parses, url_path,
};
use crate::signer::{sign, signed_parts};

verus! {

/// A URL that parses and has a host.
pub open spec fn url_accepted(url: Seq<char>) -> bool {
    url_parses(url) && url_host(url) is Some
}

/// `SHA-256={base64 of the SHA-256 of the body's UTF-8 bytes}`.
pub open spec fn digest_value(body: Seq<char>) -> Seq<char> {
    "SHA-256="@ + base64_std(sha256_of(body))
}

/// The headers of a POST request: the base set, then the added pairs over it.
pub open spec fn post_headers(
    date: Seq<char>,
    host: Seq<char>,
    body: Seq<char>,
    additional: Seq<(String, String)>,
) -> Map<Seq<char>, Seq<char>> {
    map![
        "date"@ => date,
        "host"@ => host,
        "content-type"@ => "application/activity+json"@,
        "digest"@ => digest_value(body),
    ].union_prefer_right(lowered_map(additional))
}

/// The headers of a GET request: the base set, then the added pairs over it.
pub open spec fn get_headers(date: Seq<char>, host: Seq<char>, additional: Seq<(String, String)>) -> Map<
    Seq<char>,
    Seq<char>,
> {
    map![
        "accept"@ => "application/activity+json, application/ld+json"@,
        "date"@ => date,
        "host"@ => host,
    ].union_prefer_right(lowered_map(additional))
}

/// The names that a POST request's signature covers, in order.
pub open spec fn post_profile() -> Seq<Seq<char>> {
    seq!["(request-target)"@, "date"@, "host"@, "digest"@]
}

/// The names that a GET request's signature covers, in order.
pub open spec fn get_profile() -> Seq<Seq<char>> {
    seq!["(request-target)"@, "date"@, "host"@, "accept"@]
}

/// A built request: its URL is the serialized form of `url`, it has the given
/// method, and its headers are the given map, each name lowercased and once.
pub open spec fn built_as(
    q: Request,
    url: Seq<char>,
    method: Seq<char>,
    headers: Map<Seq<char>, Seq<char>>,
) -> bool {
    &&& q.url@ == url_href(url)
    &&& q.method@ == method
    &&& normalized(q.headers@)
    &&& pairs_map(q.headers@) == headers
}

/// The views of a signed request's three derived texts, or the error.
pub open spec fn signed_view(r: Result<SignedRequest, SignError>) -> Result<
    (Seq<char>, Seq<char>, Seq<char>),
    SignError,
> {
    match r {
        Ok(s) => Ok((s.signing_string@, s.signature@, s.signature_header@)),
        Err(e) => Err(e),
    }
}

/// The outcome of signing a request built with the given method and headers
/// from `url`, with the given profile.
pub open spec fn signed_request_as(
    r: Result<SignedRequest, SignError>,
    key: PrivateKey,
    url: Seq<char>,
    method: Seq<char>,
    headers: Map<Seq<char>, Seq<char>>,
    profile: Seq<Seq<char>>,
) -> bool {
    if !url_accepted(url) {
        r == Err::<SignedRequest, SignError>(SignError::InvalidUrl)
    } else {
        &&& signed_view(r) == signed_parts(profile, method, Some(url_path(url)), headers, key)
        &&& r matches Ok(s) ==> built_as(s.request, url, method, headers)
    }
}

/// The outcome of `create_signed_post_at` for a given date.
pub open spec fn signed_post_as(
    r: Result<SignedRequest, SignError>,
    key: PrivateKey,
    url: Seq<char>,
    body: Seq<char>,
    additional: Seq<(String, String)>,
    date: Seq<char>,
) -> bool {
    signed_request_as(
        r,
        key,
        url,
        "POST"@,
        post_headers(date, url_host(url)->0, body, additional),
        post_profile(),
    )
}

/// The outcome of `create_signed_get_at` for a given date.
pub open spec fn signed_get_as(
    r: Result<SignedRequest, SignError>,
    key: PrivateKey,
    url: Seq<char>,
    additional: Seq<(String, String)>,
    date: Seq<char>,
) -> bool {
    signed_request_as(
        r,
        key,
        url,
        "GET"@,
        get_headers(date, url_host(url)->0, additional),
        get_profile(),
    )
}

proof fn lemma_header_names_lower()
    ensures
        lower_name("date"@) == "date"@,
        lower_name("host"@) == "host"@,
        lower_name("content-type"@) == "content-type"@,
        lower_name("digest"@) == "digest"@,
        lower_name("accept"@) == "accept"@,
{
    reveal_strlit("date");
    reveal_strlit("host");
    reveal_strlit("content-type");
    reveal_strlit("digest");
    reveal_strlit("accept");
    assert(plain_lower("date"@));
    assert(plain_lower("host"@));
    assert(plain_lower("content-type"@));
    assert(plain_lower("digest"@));
    assert(plain_lower("accept"@));
}

/// The `Digest` header value of a body.
pub fn digest_header(body: &str) -> (r: String)
    ensures
        r@ == digest_value(body@),
{
    let hash = sha256(body);
    let encoded = base64_encode(&hash);
    let mut out = "SHA-256=".to_owned();
    out.append(encoded.as_str());
    out
}

/// The serialized URL, its path and the headers of a POST request.
fn post_parts(url: &str, body: &str, additional_headers: Vec<(String, String)>, date: String) -> (r:
    Result<(String, String, HeaderMap), SignError>)
    ensures
        !url_accepted(url@) ==> r is Err,
        r matches Err(e) ==> e == SignError::InvalidUrl,
        url_accepted(url@) ==> (r matches Ok(t) && t.0@ == url_href(url@) && t.1@ == url_path(url@)
            && t.2@ == post_headers(date@, url_host(url@)->0, body@, additional_headers@)),
{
    let parts = match parse_url(url) {
        None => return Err(SignError::InvalidUrl),
        Some(p) => p,
    };
    let host = match parts.host {
        None => return Err(SignError::InvalidUrl),
        Some(h) => h,
    };
    let ghost host_view = host@;
    let mut base = HeaderMap::new();
    base.insert("date", date);
    base.insert("host", host);
    base.insert("content-type", "application/activity+json".to_owned());
    base.insert("digest", digest_header(body));
    proof {
        lemma_header_names_lower();
        assert(base@.union_prefer_right(lowered_map(additional_headers@)) =~= post_headers(
            date@,
            host_view,
            body@,
            additional_headers@,
        ));
    }
    let merged = object_assign_with_lc_key(base, additional_headers);
    Ok((parts.href, parts.path, merged))
}

/// The serialized URL, its path and the headers of a GET request.
fn get_parts(url: &str, additional_headers: Vec<(String, String)>, date: String) -> (r: Result<
    (String, String, HeaderMap),
    SignError,
>)
    ensures
        !url_accepted(url@) ==> r is Err,
        r matches Err(e) ==> e == SignError::InvalidUrl,
        url_accepted(url@) ==> (r matches Ok(t) && t.0@ == url_href(url@) && t.1@ == url_path(url@)
            && t.2@ == get_headers(date@, url_host(url@)->0, additional_headers@)),
{
    let parts = match parse_url(url) {
        None => return Err(SignError::InvalidUrl),
        Some(p) => p,
    };
    let host = match parts.host {
        None => return Err(SignError::InvalidUrl),
        Some(h) => h,
    };
    let ghost host_view = host@;
    let mut base = HeaderMap::new();
    base.insert("accept", "application/activity+json, application/ld+json".to_owned());
    base.insert("date", date);
    base.insert("host", host);
    proof {
        lemma_header_names_lower();
        assert(base@.union_prefer_right(lowered_map(additional_headers@)) =~= get_headers(
            date@,
            host_view,
            additional_headers@,
        ));
    }
    let merged = object_assign_with_lc_key(base, additional_headers);
    Ok((parts.href, parts.path, merged))
}

/// The POST request for `url` and `body` at the given date: base headers
/// `Date`, `Host`, `Content-Type` and `Digest`, with the added headers merged
/// over them after lowercasing. Fails with `InvalidUrl` where the URL does
/// not parse or has no host.
pub fn build_post_request_at(
    url: &str,
    body: &str,
    additional_headers: Vec<(String, String)>,
    date: String,
) -> (r: Result<Request, SignError>)
    ensures
        !url_accepted(url@) ==> r == Err::<Request, SignError>(SignError::InvalidUrl),
        url_accepted(url@) ==> (r matches Ok(q) && built_as(
            q,
            url@,
            "POST"@,
            post_headers(date@, url_host(url@)->0, body@, additional_headers@),
        )),
{
    match post_parts(url, body, additional_headers, date) {
        Err(e) => Err(e),
        Ok((href, _path, headers)) => Ok(
            Request { url: href, method: "POST".to_owned(), headers: headers.into_entries() },
        ),
    }
}

/// The GET request for `url` at the given date: base headers `Accept`, `Date`
/// and `Host`, with the added headers merged over them after lowercasing.
/// Fails with `InvalidUrl` where the URL does not parse or has no host.
pub fn build_get_request_at(url: &str, additional_headers: Vec<(String, String)>, date: String) -> (r:
    Result<Request, SignError>)
    ensures
        !url_accepted(url@) ==> r == Err::<Request, SignError>(SignError::InvalidUrl),
        url_accepted(url@) ==> (r matches Ok(q) && built_as(
            q,
            url@,
            "GET"@,
            get_headers(date@, url_host(url@)->0, additional_headers@),
        )),
{
    match get_parts(url, additional_headers, date) {
        Err(e) => Err(e),
        Ok((href, _path, headers)) => Ok(
            Request { url: href, method: "GET".to_owned(), headers: headers.into_entries() },
        ),
    }
}

/// The POST request for `url` and `body`, dated now (see `build_post_request_at`).
pub fn build_post_request(url: &str, body: &str, additional_headers: Vec<(String, String)>) -> (r:
    Result<Request, SignError>)
    ensures
        !url_accepted(url@) ==> r == Err::<Request, SignError>(SignError::InvalidUrl),
        url_accepted(url@) ==> (r matches Ok(q) && exists|date: Seq<char>|
            built_as(
                q,
                url@,
                "POST"@,
                #[trigger] post_headers(date, url_host(url@)->0, body@, additional_headers@),
            )),
{
    let date = now_rfc2822();
    let ghost d = date@;
    let ghost add = additional_headers@;
    let r = build_post_request_at(url, body, additional_headers, date);
    proof {
        if url_accepted(url@) {
            assert(built_as(r->Ok_0, url@, "POST"@, post_headers(d, url_host(url@)->0, body@, add)));
        }
    }
    r
}

/// The GET request for `url`, dated now (see `build_get_request_at`).
pub fn build_get_request(url: &str, additional_headers: Vec<(String, String)>) -> (r: Result<
    Request,
    SignError,
>)
    ensures
        !url_accepted(url@) ==> r == Err::<Request, SignError>(SignError::InvalidUrl),
        url_accepted(url@) ==> (r matches Ok(q) && exists|date: Seq<char>|
            built_as(
                q,
                url@,
                "GET"@,
                #[trigger] get_headers(date, url_host(url@)->0, additional_headers@),
            )),
{
    let date = now_rfc2822();
    let ghost d = date@;
    let ghost add = additional_headers@;
    let r = build_get_request_at(url, additional_headers, date);
    proof {
        if url_accepted(url@) {
            assert(built_as(r->Ok_0, url@, "GET"@, get_headers(d, url_host(url@)->0, add)));
        }
    }
    r
}

fn post_profile_names() -> (r: Vec<&'static str>)
    ensures
        names_of(r@) == post_profile(),
{
    let r = vec!["(request-target)", "date", "host", "digest"];
    assert(names_of(r@) =~= post_profile());
    r
}

fn get_profile_names() -> (r: Vec<&'static str>)
    ensures
        names_of(r@) == get_profile(),
{
    let r = vec!["(request-target)", "date", "host", "accept"];
    assert(names_of(r@) =~= get_profile());
    r
}

/// Derive the signing string from a request's parts, sign it with `key`
/// over `profile`, and bundle the results with the request.
fn sign_parts(
    href: String,
    method: String,
    path: String,
    headers: HeaderMap,
    key: &PrivateKey,
    profile: &Vec<&str>,
) -> (r: Result<SignedRequest, SignError>)
    ensures
        signed_view(r) == signed_parts(names_of(profile@), method@, Some(path@), headers@, *key),
        r matches Ok(s) ==> s.request.url == href && s.request.method == method && normalized(
            s.request.headers@,
        ) && pairs_map(s.request.headers@) == headers@,
{
    let path = Some(path);
    let signing_string = match signing_string_of(&method, &path, &headers, profile) {
        Err(e) => return Err(e),
        Ok(s) => s,
    };
    match sign(signing_string.as_str(), key, profile) {
        Err(e) => Err(e),
        Ok((signature, signature_header)) => Ok(
            SignedRequest {
                request: Request { url: href, method, headers: headers.into_entries() },
                signing_string,
                signature,
                signature_header,
            },
        ),
    }
}

/// Build the POST request for `url` and `body` at the given date and sign it
/// with `key` over `(request-target)`, `date`, `host` and `digest`.
pub fn create_signed_post_at(
    key: &PrivateKey,
    url: &str,
    body: &str,
    additional_headers: Vec<(String, String)>,
    date: String,
) -> (r: Result<SignedRequest, SignError>)
    ensures
        signed_post_as(r, *key, url@, body@, additional_headers@, date@),
{
    match post_parts(url, body, additional_headers, date) {
        Err(e) => Err(e),
        Ok((href, path, headers)) => sign_parts(
            href,
            "POST".to_owned(),
            path,
            headers,
            key,
            &post_profile_names(),
        ),
    }
}

/// Build the GET request for `url` at the given date and sign it with `key`
/// over `(request-target)`, `date`, `host` and `accept`.
pub fn create_signed_get_at(
    key: &PrivateKey,
    url: &str,
    additional_headers: Vec<(String, String)>,
    date: String,
) -> (r: Result<SignedRequest, SignError>)
    ensures
        signed_get_as(r, *key, url@, additional_headers@, date@),
{
    match get_parts(url, additional_headers, date) {
        Err(e) => Err(e),
        Ok((href, path, headers)) => sign_parts(
            href,
            "GET".to_owned(),
            path,
            headers,
            key,
            &get_profile_names(),
        ),
    }
}

/// Build a POST request dated now and sign it (see `create_signed_post_at`).
pub fn create_signed_post(
    key: PrivateKey,
    url: String,
    body: String,
    additional_headers: Vec<(String, String)>,
) -> (r: Result<SignedRequest, SignError>)
    ensures
        exists|date: Seq<char>|
            #[trigger] signed_post_as(r, key, url@, body@, additional_headers@, date),
{
    let date = now_rfc2822();
    let ghost d = date@;
    let ghost add = additional_headers@;
    let r = create_signed_post_at(&key, url.as_str(), body.as_str(), additional_headers, date);
    assert(signed_post_as(r, key, url@, body@, add, d));
    r
}

/// Build a GET request dated now and sign it (see `create_signed_get_at`).
pub fn create_signed_get(key: PrivateKey, url: String, additional_headers: Vec<(String, String)>) -> (r:
    Result<SignedRequest, SignError>)
    ensures
        exists|date: Seq<char>| #[trigger] signed_get_as(r, key, url@, additional_headers@, date),
{
    let date = now_rfc2822();
    let ghost d = date@;
    let ghost add = additional_headers@;
    let r = create_signed_get_at(&key, url.as_str(), additional_headers, date);
    assert(signed_get_as(r, key, url@, add, d));
    r
}

} // verus!
