//! The signing string: the listed headers of a request, one line each.
use vstd::prelude::*;
use vstd::string::*;

use crate::headers::{lc_object_key, lower_name, lowercase_name, lowered_map, HeaderMap};
use crate::model::{Request, SignError};
use crate::outside::{parse_url, url_parses, url_path};

verus! {

/// The name of the pseudo-header that stands for the method and the path.
pub open spec fn request_target_name() -> Seq<char> {
    "(request-target)"@
}

/// The views of a list of header names.
pub open spec fn names_of(v: Seq<&str>) -> Seq<Seq<char>> {
    v.map_values(|s: &str| s@)
}

/// `(request-target): {lowercased method} {path}`.
pub open spec fn target_line(method: Seq<char>, path: Seq<char>) -> Seq<char> {
    "(request-target): "@ + lower_name(method) + " "@ + path
}

/// The path of a URL text, where it parses.
pub open spec fn path_of(url: Seq<char>) -> Option<Seq<char>> {
    if url_parses(url) {
        Some(url_path(url))
    } else {
        None
    }
}

/// `{name}: {value}`.
pub open spec fn header_line(name: Seq<char>, value: Seq<char>) -> Seq<char> {
    name + ": "@ + value
}

/// The line that one listed name contributes, for a request with the given
/// method, URL path (`None` where the URL does not parse) and
/// lowercase-keyed headers.
pub open spec fn signing_line(
    name: Seq<char>,
    method: Seq<char>,
    path: Option<Seq<char>>,
    headers: Map<Seq<char>, Seq<char>>,
) -> Result<Seq<char>, SignError> {
    let key = lower_name(name);
    if key == request_target_name() {
        match path {
            Some(p) => Ok(target_line(method, p)),
            None => Err(SignError::InvalidUrl),
        }
    } else if headers.contains_key(key) {
        Ok(header_line(key, headers[key]))
    } else {
        Err(SignError::MissingHeader)
    }
}

/// The lines of all listed names in order, or the first failure.
pub open spec fn signing_lines(
    names: Seq<Seq<char>>,
    method: Seq<char>,
    path: Option<Seq<char>>,
    headers: Map<Seq<char>, Seq<char>>,
) -> Result<Seq<Seq<char>>, SignError>
    decreases names.len(),
{
    if names.len() == 0 {
        Ok(Seq::empty())
    } else {
        match signing_lines(names.drop_last(), method, path, headers) {
            Err(e) => Err(e),
            Ok(ls) => match signing_line(names.last(), method, path, headers) {
                Err(e) => Err(e),
                Ok(l) => Ok(ls.push(l)),
            },
        }
    }
}

/// The parts joined with one separator between neighbours.
pub open spec fn join_with(parts: Seq<Seq<char>>, sep: char) -> Seq<char>
    decreases parts.len(),
{
    if parts.len() == 0 {
        Seq::empty()
    } else if parts.len() == 1 {
        parts[0]
    } else {
        join_with(parts.drop_last(), sep) + seq![sep] + parts.last()
    }
}

/// The signing string of a request: its lines joined by newlines.
pub open spec fn canonical_string(
    names: Seq<Seq<char>>,
    method: Seq<char>,
    path: Option<Seq<char>>,
    headers: Map<Seq<char>, Seq<char>>,
) -> Result<Seq<char>, SignError> {
    match signing_lines(names, method, path, headers) {
        Err(e) => Err(e),
        Ok(ls) => Ok(join_with(ls, '\n')),
    }
}

proof fn lemma_lines_error_stays(
    names: Seq<Seq<char>>,
    i: int,
    method: Seq<char>,
    path: Option<Seq<char>>,
    headers: Map<Seq<char>, Seq<char>>,
)
    requires
        0 <= i <= names.len(),
        signing_lines(names.take(i), method, path, headers) is Err,
    ensures
        signing_lines(names, method, path, headers) == signing_lines(
            names.take(i),
            method,
            path,
            headers,
        ),
    decreases names.len() - i,
{
    if i < names.len() {
        assert(names.take(i + 1).drop_last() =~= names.take(i));
        lemma_lines_error_stays(names, i + 1, method, path, headers);
    } else {
        assert(names.take(i) =~= names);
    }
}

/// Appends the separator (unless `out` is the first part) and `part`.
fn push_part(out: &mut String, first: bool, sep: &str, part: &str)
    ensures
        final(out)@ == if first {
            old(out)@ + part@
        } else {
            old(out)@ + sep@ + part@
        },
{
    if !first {
        out.append(sep);
    }
    out.append(part);
}

/// The names joined by single spaces, as the `headers` field of the
/// `Signature` header lists them.
pub(crate) fn join_names(include_headers: &Vec<&str>) -> (r: String)
    ensures
        r@ == join_with(names_of(include_headers@), ' '),
{
    let ghost names = names_of(include_headers@);
    let mut out = String::new();
    let mut i: usize = 0;
    while i < include_headers.len()
        invariant
            0 <= i <= include_headers@.len(),
            names == names_of(include_headers@),
            out@ == join_with(names.take(i as int), ' '),
        decreases include_headers@.len() - i,
    {
        assert(names.take(i + 1).drop_last() =~= names.take(i as int));
        push_part(&mut out, i == 0, " ", include_headers[i]);
        proof {
            reveal_strlit(" ");
            assert(out@ =~= join_with(names.take(i + 1), ' '));
        }
        i = i + 1;
    }
    assert(names.take(i as int) =~= names);
    out
}

/// The line for one listed name (see `signing_line`).
fn gen_signing_line(name: &str, method: &String, path: &Option<String>, headers: &HeaderMap) -> (r:
    Result<String, SignError>)
    ensures
        r matches Ok(l) ==> signing_line(name@, method@, opt_view(*path), headers@) == Ok::<Seq<char>, SignError>(l@),
        r matches Err(e) ==> signing_line(name@, method@, opt_view(*path), headers@) == Err::<Seq<char>, SignError>(e),
{
    let key = lowercase_name(name);
    let target = "(request-target)".to_owned();
    if key == target {
        match path {
            None => Err(SignError::InvalidUrl),
            Some(p) => {
                let lm = lowercase_name(method.as_str());
                let mut line = "(request-target): ".to_owned();
                line.append(lm.as_str());
                line.append(" ");
                line.append(p.as_str());
                Ok(line)
            },
        }
    } else {
        match headers.get(name) {
            None => Err(SignError::MissingHeader),
            Some(v) => {
                let mut line = key;
                line.append(": ");
                line.append(v.as_str());
                Ok(line)
            },
        }
    }
}

/// The view of an optional text.
pub open spec fn opt_view(o: Option<String>) -> Option<Seq<char>> {
    match o {
        Some(s) => Some(s@),
        None => None,
    }
}

/// The signing string over the listed header names of a request with the
/// given method, URL path (`None` where its URL does not parse) and headers.
pub fn signing_string_of(
    method: &String,
    path: &Option<String>,
    headers: &HeaderMap,
    include_headers: &Vec<&str>,
) -> (r: Result<String, SignError>)
    ensures
        r matches Ok(s) ==> canonical_string(
            names_of(include_headers@),
            method@,
            opt_view(*path),
            headers@,
        ) == Ok::<Seq<char>, SignError>(s@),
        r matches Err(e) ==> canonical_string(
            names_of(include_headers@),
            method@,
            opt_view(*path),
            headers@,
        ) == Err::<Seq<char>, SignError>(e),
{
    let ghost names = names_of(include_headers@);
    let ghost pv = opt_view(*path);
    let ghost hm = headers@;
    let mut out = String::new();
    let mut i: usize = 0;
    while i < include_headers.len()
        invariant
            0 <= i <= include_headers@.len(),
            names == names_of(include_headers@),
            pv == opt_view(*path),
            hm == headers@,
            signing_lines(names.take(i as int), method@, pv, hm) is Ok,
            out@ == join_with(signing_lines(names.take(i as int), method@, pv, hm)->Ok_0, '\n'),
        decreases include_headers@.len() - i,
    {
        let ghost prev = signing_lines(names.take(i as int), method@, pv, hm)->Ok_0;
        assert(names.take(i + 1).drop_last() =~= names.take(i as int));
        assert(names.take(i + 1).last() == include_headers@[i as int]@);
        match gen_signing_line(include_headers[i], method, path, headers) {
            Err(e) => {
                proof {
                    assert(signing_lines(names.take(i + 1), method@, pv, hm)
                        == Err::<Seq<Seq<char>>, SignError>(e));
                    lemma_lines_error_stays(names, i + 1, method@, pv, hm);
                }
                return Err(e);
            },
            Ok(line) => {
                proof {
                    let ls = prev.push(line@);
                    assert(ls.drop_last() =~= prev);
                }
                push_part(&mut out, i == 0, "\n", line.as_str());
                proof {
                    reveal_strlit("\n");
                    let ls = prev.push(line@);
                    if i == 0 {
                        assert(prev.len() == 0);
                        assert(out@ =~= join_with(ls, '\n'));
                    } else {
                        assert(out@ =~= join_with(ls, '\n'));
                    }
                }
            },
        }
        i = i + 1;
    }
    assert(names.take(i as int) =~= names);
    Ok(out)
}

/// The signing string of `request` over the listed header names: header
/// names are lowercased and looked up after lowercasing, the
/// `(request-target)` pseudo-header gives the lowercased method and the path
/// of the URL, and the lines are joined by newlines.
pub fn gen_signing_string(request: &Request, include_headers: &Vec<&str>) -> (r: Result<
    String,
    SignError,
>)
    ensures
        r matches Ok(s) ==> canonical_string(
            names_of(include_headers@),
            request.method@,
            path_of(request.url@),
            lowered_map(request.headers@),
        ) == Ok::<Seq<char>, SignError>(s@),
        r matches Err(e) ==> canonical_string(
            names_of(include_headers@),
            request.method@,
            path_of(request.url@),
            lowered_map(request.headers@),
        ) == Err::<Seq<char>, SignError>(e),
{
    let headers = lc_object_key(&request.headers);
    let path = match parse_url(request.url.as_str()) {
        Some(p) => Some(p.path),
        None => None,
    };
    signing_string_of(&request.method, &path, &headers, include_headers)
}

} // verus!
