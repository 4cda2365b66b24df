//! Properties that relate the library's functions, proved over their contracts.
use vstd::prelude::*;

use crate::canon::{
    canonical_string, header_line, join_with, request_target_name, signing_line, signing_lines,
    target_line,
};
use crate::headers::{lower_name, lowered_map, pairs_map, plain_lower};
use crate::model::{PrivateKey, SignError, SignedRequest};
use crate::outside::{url_host, url_path};
use crate::request::{
    get_headers, get_profile, post_headers, post_profile, signed_get_as, signed_post_as,
    url_accepted,
};
use crate::signer::{pair_view, signature_header_text, signed_text};

verus! {

proof fn lemma_literals()
    ensures
        lower_name("(request-target)"@) == request_target_name(),
        "date"@ != request_target_name(),
        "host"@ != request_target_name(),
        "digest"@ != request_target_name(),
        "accept"@ != request_target_name(),
        lower_name("date"@) == "date"@,
        lower_name("host"@) == "host"@,
        lower_name("digest"@) == "digest"@,
        lower_name("accept"@) == "accept"@,
{
    reveal_strlit("(request-target)");
    reveal_strlit("date");
    reveal_strlit("host");
    reveal_strlit("digest");
    reveal_strlit("accept");
    assert(plain_lower("(request-target)"@));
    assert(plain_lower("date"@));
    assert(plain_lower("host"@));
    assert(plain_lower("digest"@));
    assert(plain_lower("accept"@));
}

/// The lines of a profile `(request-target), a, b, c` whose three header
/// names are lowercase and present.
proof fn lemma_four_lines(
    a: Seq<char>,
    b: Seq<char>,
    c: Seq<char>,
    method: Seq<char>,
    path: Seq<char>,
    headers: Map<Seq<char>, Seq<char>>,
)
    requires
        lower_name("(request-target)"@) == request_target_name(),
        lower_name(a) == a && a != request_target_name() && headers.contains_key(a),
        lower_name(b) == b && b != request_target_name() && headers.contains_key(b),
        lower_name(c) == c && c != request_target_name() && headers.contains_key(c),
    ensures
        canonical_string(seq!["(request-target)"@, a, b, c], method, Some(path), headers) == Ok::<
            Seq<char>,
            SignError,
        >(
            join_with(
                seq![
                    target_line(method, path),
                    header_line(a, headers[a]),
                    header_line(b, headers[b]),
                    header_line(c, headers[c]),
                ],
                '\n',
            ),
        ),
{
    let tr = "(request-target)"@;
    let n1 = seq![tr];
    let n2 = seq![tr, a];
    let n3 = seq![tr, a, b];
    let n4 = seq![tr, a, b, c];
    assert(n1.drop_last() =~= Seq::<Seq<char>>::empty());
    assert(n2.drop_last() =~= n1);
    assert(n3.drop_last() =~= n2);
    assert(n4.drop_last() =~= n3);
    let t = target_line(method, path);
    let la = header_line(a, headers[a]);
    let lb = header_line(b, headers[b]);
    let lc = header_line(c, headers[c]);
    assert(signing_lines(n1.drop_last(), method, Some(path), headers) == Ok::<Seq<Seq<char>>, SignError>(
        Seq::empty(),
    ));
    assert(n1.last() == tr);
    assert(signing_line(tr, method, Some(path), headers) == Ok::<Seq<char>, SignError>(t));
    assert(Seq::<Seq<char>>::empty().push(t) =~= seq![t]);
    assert(signing_lines(n1, method, Some(path), headers) == Ok::<Seq<Seq<char>>, SignError>(seq![t]));
    assert(seq![t].push(la) =~= seq![t, la]);
    assert(signing_lines(n2, method, Some(path), headers) == Ok::<Seq<Seq<char>>, SignError>(
        seq![t, la],
    ));
    assert(seq![t, la].push(lb) =~= seq![t, la, lb]);
    assert(signing_lines(n3, method, Some(path), headers) == Ok::<Seq<Seq<char>>, SignError>(
        seq![t, la, lb],
    ));
    assert(seq![t, la, lb].push(lc) =~= seq![t, la, lb, lc]);
    assert(signing_lines(n4, method, Some(path), headers) == Ok::<Seq<Seq<char>>, SignError>(
        seq![t, la, lb, lc],
    ));
}

/// For a URL that parses and has a host, the signing string of a POST
/// request has exactly the four lines `(request-target)`, `date`, `host` and
/// `digest`, in this order, each carrying the request's own value; the
/// request is signed exactly when that string is, and then carries it.
pub proof fn lemma_post_signing_string_lines(
    r: Result<SignedRequest, SignError>,
    key: PrivateKey,
    url: Seq<char>,
    body: Seq<char>,
    additional: Seq<(String, String)>,
    date: Seq<char>,
)
    requires
        signed_post_as(r, key, url, body, additional, date),
        url_accepted(url),
    ensures
        ({
            let h = post_headers(date, url_host(url)->0, body, additional);
            let ss = join_with(
                seq![
                    target_line("POST"@, url_path(url)),
                    header_line("date"@, h["date"@]),
                    header_line("host"@, h["host"@]),
                    header_line("digest"@, h["digest"@]),
                ],
                '\n',
            );
            &&& canonical_string(post_profile(), "POST"@, Some(url_path(url)), h) == Ok::<
                Seq<char>,
                SignError,
            >(ss)
            &&& (r is Ok <==> signed_text(ss, key, post_profile()) is Ok)
            &&& r is Ok ==> r->Ok_0.signing_string@ == ss && pairs_map(r->Ok_0.request.headers@)
                == h
        }),
{
    lemma_literals();
    let h = post_headers(date, url_host(url)->0, body, additional);
    assert(post_profile() =~= seq!["(request-target)"@, "date"@, "host"@, "digest"@]);
    lemma_four_lines("date"@, "host"@, "digest"@, "POST"@, url_path(url), h);
}

/// For a URL that parses and has a host, the signing string of a GET
/// request has exactly the four lines `(request-target)`, `date`, `host` and
/// `accept`, in this order (see the POST case).
pub proof fn lemma_get_signing_string_lines(
    r: Result<SignedRequest, SignError>,
    key: PrivateKey,
    url: Seq<char>,
    additional: Seq<(String, String)>,
    date: Seq<char>,
)
    requires
        signed_get_as(r, key, url, additional, date),
        url_accepted(url),
    ensures
        ({
            let h = get_headers(date, url_host(url)->0, additional);
            let ss = join_with(
                seq![
                    target_line("GET"@, url_path(url)),
                    header_line("date"@, h["date"@]),
                    header_line("host"@, h["host"@]),
                    header_line("accept"@, h["accept"@]),
                ],
                '\n',
            );
            &&& canonical_string(get_profile(), "GET"@, Some(url_path(url)), h) == Ok::<
                Seq<char>,
                SignError,
            >(ss)
            &&& (r is Ok <==> signed_text(ss, key, get_profile()) is Ok)
            &&& r is Ok ==> r->Ok_0.signing_string@ == ss && pairs_map(r->Ok_0.request.headers@)
                == h
        }),
{
    lemma_literals();
    let h = get_headers(date, url_host(url)->0, additional);
    assert(get_profile() =~= seq!["(request-target)"@, "date"@, "host"@, "accept"@]);
    lemma_four_lines("date"@, "host"@, "accept"@, "GET"@, url_path(url), h);
}

/// Whatever a request holds, the `(request-target)` line is the lowercased
/// method, a space and the path of the URL (which stops before the query
/// and the fragment).
pub proof fn lemma_request_target_line(
    name: Seq<char>,
    method: Seq<char>,
    path: Seq<char>,
    headers: Map<Seq<char>, Seq<char>>,
)
    requires
        lower_name(name) == request_target_name(),
    ensures
        signing_line(name, method, Some(path), headers) == Ok::<Seq<char>, SignError>(
            "(request-target): "@ + lower_name(method) + " "@ + path,
        ),
{
}

/// An added header replaces the built-in value of the same name whatever the
/// case of either name, and the signing string finds it under the lowercased
/// name.
pub proof fn lemma_added_header_wins(
    date: Seq<char>,
    host: Seq<char>,
    body: Seq<char>,
    additional: Seq<(String, String)>,
    name: Seq<char>,
    method: Seq<char>,
    path: Option<Seq<char>>,
)
    requires
        lowered_map(additional).contains_key(lower_name(name)),
    ensures
        ({
            let k = lower_name(name);
            let v = lowered_map(additional)[k];
            &&& post_headers(date, host, body, additional).contains_key(k)
            &&& post_headers(date, host, body, additional)[k] == v
            &&& get_headers(date, host, additional).contains_key(k)
            &&& get_headers(date, host, additional)[k] == v
            &&& k != request_target_name() ==> signing_line(
                name,
                method,
                path,
                post_headers(date, host, body, additional),
            ) == Ok::<Seq<char>, SignError>(header_line(k, v))
            &&& k != request_target_name() ==> signing_line(
                name,
                method,
                path,
                get_headers(date, host, additional),
            ) == Ok::<Seq<char>, SignError>(header_line(k, v))
        }),
{
}

/// Signing one signing string twice with one key gives the same signature
/// and the same `Signature` header: the outcome is fixed by the inputs.
pub proof fn lemma_resign_identical(
    signing: Seq<char>,
    key: PrivateKey,
    names: Seq<Seq<char>>,
    first: Result<(String, String), SignError>,
    second: Result<(String, String), SignError>,
)
    requires
        pair_view(first) == signed_text(signing, key, names),
        pair_view(second) == signed_text(signing, key, names),
    ensures
        first is Ok <==> second is Ok,
        first is Ok ==> first->Ok_0.0@ == second->Ok_0.0@ && first->Ok_0.1@ == second->Ok_0.1@,
        first is Err ==> first == second,
{
}

proof fn lemma_profile_texts()
    ensures
        join_with(post_profile(), ' ') == "(request-target) date host digest"@,
        join_with(get_profile(), ' ') == "(request-target) date host accept"@,
{
    reveal_strlit("(request-target)");
    reveal_strlit("date");
    reveal_strlit("host");
    reveal_strlit("digest");
    reveal_strlit("accept");
    reveal_strlit("(request-target) date host digest");
    reveal_strlit("(request-target) date host accept");
    let tr = "(request-target)"@;
    let p = post_profile();
    let g = get_profile();
    assert(p.drop_last().drop_last().drop_last() =~= seq![tr]);
    assert(g.drop_last().drop_last().drop_last() =~= seq![tr]);
    assert(p.drop_last().drop_last() =~= seq![tr, "date"@]);
    assert(g.drop_last().drop_last() =~= seq![tr, "date"@]);
    assert(p.drop_last() =~= seq![tr, "date"@, "host"@]);
    assert(g.drop_last() =~= seq![tr, "date"@, "host"@]);
    let j2 = tr + seq![' '] + "date"@;
    let j3 = j2 + seq![' '] + "host"@;
    assert(join_with(seq![tr], ' ') == tr);
    assert(join_with(seq![tr, "date"@], ' ') == j2) by {
        assert(seq![tr, "date"@].drop_last() =~= seq![tr]);
    }
    assert(join_with(seq![tr, "date"@, "host"@], ' ') == j3) by {
        assert(seq![tr, "date"@, "host"@].drop_last() =~= seq![tr, "date"@]);
    }
    assert(join_with(p, ' ') =~= "(request-target) date host digest"@);
    assert(join_with(g, ' ') =~= "(request-target) date host accept"@);
}

/// The `Signature` header of either profile names the `rsa-sha256`
/// algorithm and lists exactly the profile's header names, in order.
pub proof fn lemma_signature_header_fields(key_id: Seq<char>, signature: Seq<char>)
    ensures
        signature_header_text(key_id, post_profile(), signature) == "keyId=\""@ + key_id
            + "\",algorithm=\"rsa-sha256\",headers=\"(request-target) date host digest\",signature=\""@
            + signature + "\""@,
        signature_header_text(key_id, get_profile(), signature) == "keyId=\""@ + key_id
            + "\",algorithm=\"rsa-sha256\",headers=\"(request-target) date host accept\",signature=\""@
            + signature + "\""@,
{
    lemma_profile_texts();
    reveal_strlit("\",algorithm=\"rsa-sha256\",headers=\"");
    reveal_strlit("(request-target) date host digest");
    reveal_strlit("(request-target) date host accept");
    reveal_strlit("\",algorithm=\"rsa-sha256\",headers=\"(request-target) date host digest\",signature=\"");
    reveal_strlit("\",algorithm=\"rsa-sha256\",headers=\"(request-target) date host accept\",signature=\"");
    reveal_strlit("\",signature=\"");
    let a = "\",algorithm=\"rsa-sha256\",headers=\""@;
    let e = "\",signature=\""@;
    assert(a + "(request-target) date host digest"@ + e
        =~= "\",algorithm=\"rsa-sha256\",headers=\"(request-target) date host digest\",signature=\""@);
    assert(a + "(request-target) date host accept"@ + e
        =~= "\",algorithm=\"rsa-sha256\",headers=\"(request-target) date host accept\",signature=\""@);
    assert(signature_header_text(key_id, post_profile(), signature) =~= "keyId=\""@ + key_id
        + "\",algorithm=\"rsa-sha256\",headers=\"(request-target) date host digest\",signature=\""@
        + signature + "\""@);
    assert(signature_header_text(key_id, get_profile(), signature) =~= "keyId=\""@ + key_id
        + "\",algorithm=\"rsa-sha256\",headers=\"(request-target) date host accept\",signature=\""@
        + signature + "\""@);
}

/// A signed POST request carries the `Signature` header that names the
/// `rsa-sha256` algorithm and lists `(request-target) date host digest`.
pub proof fn lemma_post_signature_header(
    r: Result<SignedRequest, SignError>,
    key: PrivateKey,
    url: Seq<char>,
    body: Seq<char>,
    additional: Seq<(String, String)>,
    date: Seq<char>,
)
    requires
        signed_post_as(r, key, url, body, additional, date),
        r is Ok,
    ensures
        r->Ok_0.signature_header@ == "keyId=\""@ + key.key_id@
            + "\",algorithm=\"rsa-sha256\",headers=\"(request-target) date host digest\",signature=\""@
            + r->Ok_0.signature@ + "\""@,
{
    lemma_signature_header_fields(key.key_id@, r->Ok_0.signature@);
}

/// A signed GET request carries the `Signature` header that names the
/// `rsa-sha256` algorithm and lists `(request-target) date host accept`.
pub proof fn lemma_get_signature_header(
    r: Result<SignedRequest, SignError>,
    key: PrivateKey,
    url: Seq<char>,
    additional: Seq<(String, String)>,
    date: Seq<char>,
)
    requires
        signed_get_as(r, key, url, additional, date),
        r is Ok,
    ensures
        r->Ok_0.signature_header@ == "keyId=\""@ + key.key_id@
            + "\",algorithm=\"rsa-sha256\",headers=\"(request-target) date host accept\",signature=\""@
            + r->Ok_0.signature@ + "\""@,
{
    lemma_signature_header_fields(key.key_id@, r->Ok_0.signature@);
}

/// A signed POST request is reproducible from its own parts: the signing
/// string of its method, URL path and headers over the POST profile is its
/// signing string, and signing that string again with the key gives its
/// signature and header.
pub proof fn lemma_signed_post_reproducible(
    r: Result<SignedRequest, SignError>,
    key: PrivateKey,
    url: Seq<char>,
    body: Seq<char>,
    additional: Seq<(String, String)>,
    date: Seq<char>,
)
    requires
        signed_post_as(r, key, url, body, additional, date),
        r is Ok,
    ensures
        ({
            let s = r->Ok_0;
            &&& canonical_string(
                post_profile(),
                s.request.method@,
                Some(url_path(url)),
                pairs_map(s.request.headers@),
            ) == Ok::<Seq<char>, SignError>(s.signing_string@)
            &&& signed_text(s.signing_string@, key, post_profile()) == Ok::<
                (Seq<char>, Seq<char>),
                SignError,
            >((s.signature@, s.signature_header@))
        }),
{
}

/// A signed GET request is reproducible from its own parts (see the POST case).
pub proof fn lemma_signed_get_reproducible(
    r: Result<SignedRequest, SignError>,
    key: PrivateKey,
    url: Seq<char>,
    additional: Seq<(String, String)>,
    date: Seq<char>,
)
    requires
        signed_get_as(r, key, url, additional, date),
        r is Ok,
    ensures
        ({
            let s = r->Ok_0;
            &&& canonical_string(
                get_profile(),
                s.request.method@,
                Some(url_path(url)),
                pairs_map(s.request.headers@),
            ) == Ok::<Seq<char>, SignError>(s.signing_string@)
            &&& signed_text(s.signing_string@, key, get_profile()) == Ok::<
                (Seq<char>, Seq<char>),
                SignError,
            >((s.signature@, s.signature_header@))
        }),
{
}

} // verus!
