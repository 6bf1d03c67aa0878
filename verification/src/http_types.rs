//! Requests, header maps and status lines of the `http` crate.
//!
//! The contracts in this file are taken on trust, up to the line that says where they end. They
//! describe a request under construction by its method, URI and headers, and a header map by the
//! first value of each name.

use vstd::multiset::Multiset;
use vstd::prelude::*;

verus! {

#[verifier::external_type_specification]
#[verifier::external_body]
pub struct ExBuilder(http::request::Builder);

#[verifier::external_type_specification]
#[verifier::external_body]
#[verifier::reject_recursive_types(T)]
pub struct ExRequest<T>(http::Request<T>);

#[verifier::external_type_specification]
#[verifier::external_body]
pub struct ExError(http::Error);

#[verifier::external_type_specification]
#[verifier::external_body]
#[verifier::reject_recursive_types(T)]
pub struct ExHeaderMap<T>(http::HeaderMap<T>);

#[verifier::external_type_specification]
#[verifier::external_body]
pub struct ExHeaderValue(http::HeaderValue);

/// Method, URI and headers of a request under construction; once a part was rejected, the text
/// of the error that rejected it.
pub uninterp spec fn builder_parts(b: http::request::Builder) -> Result<
    (Seq<char>, Seq<char>, Multiset<(Seq<char>, Seq<char>)>),
    Seq<char>,
>;

/// Method, URI and headers of a request.
pub uninterp spec fn request_parts(r: http::Request<()>) -> (
    Seq<char>,
    Seq<char>,
    Multiset<(Seq<char>, Seq<char>)>,
);

/// How a URI that was parsed from `text` is written out again; when `text` is no URI, the text
/// of the error that says so.
pub uninterp spec fn parsed_uri(text: Seq<char>) -> Result<Seq<char>, Seq<char>>;

/// The text of an error.
pub uninterp spec fn error_message(e: http::Error) -> Seq<char>;

/// The first value of each name in a header map.
pub uninterp spec fn header_content(m: http::HeaderMap<http::HeaderValue>) -> Map<
    Seq<char>,
    Seq<u8>,
>;

/// The bytes of a header value.
pub uninterp spec fn header_bytes(v: http::HeaderValue) -> Seq<u8>;

/// A status code with its reason phrase, such as `404 Not Found`.
pub uninterp spec fn status_line(code: u16) -> Seq<char>;

/// Names that HTTP accepts and keeps as they are: up to 64 lower-case letters and hyphens.
pub open spec fn is_plain_header_name(name: Seq<char>) -> bool {
    &&& 1 <= name.len() <= 64
    &&& forall|i: int|
        0 <= i < name.len() ==> #[trigger] name[i] == '-' || 97 <= name[i] as int <= 122
}

/// Texts that HTTP accepts as a header value: no control characters but tabs.
pub open spec fn is_header_value(value: Seq<char>) -> bool {
    forall|i: int|
        0 <= i < value.len() ==> #[trigger] value[i] as int == 9 || value[i] as int >= 32
            && value[i] as int != 127
}

/// Header bytes that can be read as text: visible ASCII, spaces and tabs.
pub open spec fn is_visible_ascii(bytes: Seq<u8>) -> bool {
    forall|i: int| 0 <= i < bytes.len() ==> #[trigger] bytes[i] == 9 || 32 <= bytes[i] < 127
}

/// ASCII bytes as text.
pub open spec fn ascii_text(bytes: Seq<u8>) -> Seq<char> {
    bytes.map_values(|b: u8| b as char)
}

/// A request for `/` by GET without headers.
pub open spec fn fresh_parts() -> Result<
    (Seq<char>, Seq<char>, Multiset<(Seq<char>, Seq<char>)>),
    Seq<char>,
> {
    Ok(("GET"@, "/"@, Multiset::empty()))
}

/// `http::Request::builder` starts as a request for `/` by GET without headers.
#[verifier::external_body]
pub(crate) fn new_builder() -> (b: http::request::Builder)
    ensures
        builder_parts(b) == fresh_parts(),
{
    http::Request::builder()
}

/// `Builder::method` sets the method, for the two methods that are used here.
#[verifier::external_body]
pub(crate) fn with_method(b: http::request::Builder, method: &str) -> (r: http::request::Builder)
    requires
        method@ == "GET"@ || method@ == "POST"@,
    ensures
        builder_parts(r) == match builder_parts(b) {
            Ok(p) => Ok((method@, p.1, p.2)),
            Err(text) => Err(text),
        },
{
    b.method(method)
}

/// `Builder::uri` sets the URI, and rejects the request when the text is no URI. A request that
/// was rejected before stays so, for the first reason.
#[verifier::external_body]
pub(crate) fn with_uri(b: http::request::Builder, uri: &str) -> (r: http::request::Builder)
    ensures
        builder_parts(r) == match (builder_parts(b), parsed_uri(uri@)) {
            (Ok(p), Ok(u)) => Ok((p.0, u, p.2)),
            (Ok(_), Err(text)) => Err(text),
            (Err(text), _) => Err(text),
        },
{
    b.uri(uri)
}

/// `Builder::header` adds a header, and rejects the request when the value holds control
/// characters, with the text that `InvalidHeaderValue` displays. A request that was rejected
/// before stays so, for the first reason. The map of headers has room for far more than 64.
#[verifier::external_body]
pub(crate) fn with_header(b: http::request::Builder, name: &str, value: &str) -> (r:
    http::request::Builder)
    requires
        is_plain_header_name(name@),
        builder_parts(b) matches Ok(p) ==> p.2.len() < 64,
    ensures
        builder_parts(r) == match builder_parts(b) {
            Ok(p) => if is_header_value(value@) {
                Ok((p.0, p.1, p.2.insert((name@, value@))))
            } else {
                Err("failed to parse header value"@)
            },
            Err(text) => Err(text),
        },
{
    b.header(name, value)
}

/// `Builder::body` yields the request, or the error of the part that was rejected.
#[verifier::external_body]
pub(crate) fn with_empty_body(b: http::request::Builder) -> (r: Result<
    http::Request<()>,
    http::Error,
>)
    ensures
        match (r, builder_parts(b)) {
            (Ok(req), Ok(p)) => request_parts(req) == p,
            (Err(e), Err(text)) => error_message(e) == text,
            _ => false,
        },
{
    b.body(())
}

/// `Display` of `http::Error` writes the error's text.
#[verifier::external_body]
pub(crate) fn error_text(e: &http::Error) -> (s: String)
    ensures
        s@ == error_message(*e),
{
    e.to_string()
}

/// `HeaderMap::get` finds the first value under a name.
#[verifier::external_body]
pub(crate) fn header_get<'a>(m: &'a http::HeaderMap<http::HeaderValue>, name: &str) -> (v: Option<
    &'a http::HeaderValue,
>)
    requires
        is_plain_header_name(name@),
    ensures
        match v {
            Some(value) => header_content(*m).dom().contains(name@) && header_content(*m)[name@]
                == header_bytes(*value),
            None => !header_content(*m).dom().contains(name@),
        },
{
    m.get(name)
}

/// `HeaderValue::to_str` reads a value as text when it is visible ASCII.
#[verifier::external_body]
pub(crate) fn header_to_str(v: &http::HeaderValue) -> (s: Option<&str>)
    ensures
        match s {
            Some(text) => is_visible_ascii(header_bytes(*v)) && text@ == ascii_text(
                header_bytes(*v),
            ),
            None => !is_visible_ascii(header_bytes(*v)),
        },
{
    v.to_str().ok()
}

/// `StatusCode::from_u16` and `Display`: the code and its reason phrase. Codes below 100 and
/// above 999 are no status codes.
#[verifier::external_body]
pub(crate) fn status_line_text(code: u16) -> (s: String)
    requires
        100 <= code <= 999,
    ensures
        s@ == status_line(code),
{
    http::StatusCode::from_u16(code).unwrap().to_string()
}

// The trusted contracts end here.

/// The text under a name, when there is a value and it is visible ASCII.
pub open spec fn header_text_of(m: http::HeaderMap<http::HeaderValue>, name: Seq<char>) -> Option<
    Seq<char>,
> {
    if header_content(m).dom().contains(name) && is_visible_ascii(header_content(m)[name]) {
        Some(ascii_text(header_content(m)[name]))
    } else {
        None
    }
}

/// Looks up the text under a name.
pub(crate) fn header_text<'a>(m: &'a http::HeaderMap<http::HeaderValue>, name: &str) -> (s: Option<
    &'a str,
>)
    requires
        is_plain_header_name(name@),
    ensures
        match s {
            Some(text) => header_text_of(*m, name@) == Some(text@),
            None => header_text_of(*m, name@) is None,
        },
{
    match header_get(m, name) {
        Some(v) => header_to_str(v),
        None => None,
    }
}

} // verus!
