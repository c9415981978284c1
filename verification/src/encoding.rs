//! The encodings that a login request needs, each done by the crate that
//! owns it: query strings, URIs and Base64.

use base64::prelude::BASE64_STANDARD;
use base64::Engine;
use vstd::prelude::*;
use vstd::string::StringExecFns;
use vstd::string::StringSliceAdditionalSpecFns;

verus! {

/// `serde_qs::Error`, the error of the query-string encoder. Nothing is
/// read from it.
#[verifier::external_type_specification]
#[verifier::external_body]
pub struct ExQueryError(serde_qs::Error);

/// `http::Error`, the error of the URI builder. Nothing is read from it.
#[verifier::external_type_specification]
#[verifier::external_body]
pub struct ExUriError(axum::http::Error);

/// The query string that `serde_qs::to_string` writes for the JSON object
/// with the members `pairs`, each value a JSON string; `None` where it
/// reports an error. Members are added in the order of `pairs`, a later one
/// replacing an earlier one of the same key.
pub uninterp spec fn query_string(pairs: Seq<(Seq<char>, Seq<char>)>) -> Option<Seq<char>>;

/// The text of the URI that `http::uri::Builder` builds from a scheme, an
/// authority and a path with query; `None` where it reports an error.
pub uninterp spec fn uri_text(
    scheme: Seq<char>,
    authority: Seq<char>,
    path_and_query: Seq<char>,
) -> Option<Seq<char>>;

/// The Base64 text of the UTF-8 bytes of `text`, in the standard alphabet and
/// with padding, as `base64::prelude::BASE64_STANDARD` encodes it.
pub uninterp spec fn base64_text(text: Seq<char>) -> Seq<char>;

/// The longest input, in bytes, whose Base64 text still fits a `String`:
/// every 3 bytes, or part of 3, become 4.
pub open spec fn base64_input_limit() -> int {
    (isize::MAX - 3) / 4 * 3
}

/// A key and a value as a pair of owned strings.
pub(crate) fn pair(key: &str, value: &str) -> (out: (String, String))
    ensures
        out.deep_view() == (key@, value@),
{
    (String::from_str(key), String::from_str(value))
}

/// Collects `pairs` into a `serde_json::Value::Object` of strings and calls
/// `serde_qs::to_string` on it.
///
/// Trusted: the outcome depends on the pairs alone.
#[verifier::external_body]
pub(crate) fn encode_query(pairs: &Vec<(String, String)>) -> (encoded: Result<
    String,
    serde_qs::Error,
>)
    ensures
        encoded is Ok <==> query_string(pairs.deep_view()) is Some,
        encoded matches Ok(text) ==> query_string(pairs.deep_view()) == Some(text@),
{
    let members = pairs.iter().map(|p| (p.0.clone(), serde_json::Value::String(p.1.clone())));
    serde_qs::to_string(&serde_json::Value::Object(members.collect()))
}

/// Calls `http::Uri::builder()` with `scheme`, `authority`, `path_and_query`
/// and `build`, and writes the URI out as text.
///
/// Trusted: the outcome depends on the three parts alone.
#[verifier::external_body]
pub(crate) fn build_uri(scheme: &str, authority: &str, path_and_query: &str) -> (built: Result<
    String,
    axum::http::Error,
>)
    ensures
        built is Ok <==> uri_text(scheme@, authority@, path_and_query@) is Some,
        built matches Ok(text) ==> uri_text(scheme@, authority@, path_and_query@) == Some(text@),
{
    let builder = axum::http::Uri::builder().scheme(scheme).authority(authority);
    builder.path_and_query(path_and_query).build().map(|uri| uri.to_string())
}

/// Calls `BASE64_STANDARD.encode` on the bytes of `text`.
///
/// Trusted: the result depends on the text alone. The encoder panics where
/// the length of its output overflows, and a `String` holds at most
/// `isize::MAX` bytes, so longer inputs are left out.
#[verifier::external_body]
pub(crate) fn encode_base64(text: &str) -> (encoded: String)
    requires
        text.spec_bytes().len() <= base64_input_limit(),
    ensures
        encoded@ == base64_text(text@),
{
    BASE64_STANDARD.encode(text)
}

} // verus!
