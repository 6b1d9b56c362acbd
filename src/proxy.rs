use vstd::prelude::*;
use vstd::string::StringExecFns;

use crate::esbuild::DEV_SERVER_ADDR;
use hyper::http::uri::InvalidUri;
use hyper::Uri;

verus! {

/// Address on the development bundler that a request for `path` (with its
/// query, where the request has one) is forwarded to.
pub open spec fn proxy_target(path: Seq<char>, path_and_query: Option<Seq<char>>) -> Seq<char> {
    "http://"@ + DEV_SERVER_ADDR@ + match path_and_query {
        Some(pq) => pq,
        None => path,
    }
}

/// The address a request for static assets is forwarded to in development.
pub fn proxy_uri(path: &str, path_and_query: Option<&str>) -> (r: String)
    ensures
        r@ == proxy_target(path@, match path_and_query {
            Some(pq) => Some(pq@),
            None => None,
        }),
{
    let tail = match path_and_query {
        Some(pq) => pq,
        None => path,
    };
    String::from_str("http://").concat(DEV_SERVER_ADDR).concat(tail)
}

#[verifier::external_type_specification]
#[verifier::external_body]
pub struct ExUri(Uri);

#[verifier::external_type_specification]
#[verifier::external_body]
pub struct ExInvalidUri(InvalidUri);

/// Whether the text is a URI that `Uri` accepts.
pub uninterp spec fn is_valid_uri(s: Seq<char>) -> bool;

/// Relies on `TryFrom<String> for hyper::Uri`: parses the text as a URI, and
/// whether it is accepted depends on the text alone.
#[verifier::external_body]
fn parse_uri(s: String) -> (r: Result<Uri, InvalidUri>)
    ensures
        r is Ok <==> is_valid_uri(s@),
{
    Uri::try_from(s)
}

/// The parsed address a request for static assets is forwarded to in
/// development, or none where it is not a valid URI.
pub fn proxy_target_uri(path: &str, path_and_query: Option<&str>) -> (r: Option<Uri>)
    ensures
        r is Some <==> is_valid_uri(proxy_target(path@, match path_and_query {
            Some(pq) => Some(pq@),
            None => None,
        })),
{
    match parse_uri(proxy_uri(path, path_and_query)) {
        Ok(uri) => Some(uri),
        Err(_) => None,
    }
}

} // verus!
