//! HTTP requests that carry gRPC calls.

use vstd::multiset::Multiset;
use vstd::prelude::*;
use vstd::string::*;

use crate::error::EngineError;
use crate::http_types::{
    error_text, is_header_value, is_plain_header_name, new_builder, parsed_uri, request_parts,
    with_empty_body, with_header, with_method, with_uri,
};
use crate::transport::grpc::{opt_text, plain_header_texts};

verus! {

/// The URI of a service method.
pub open spec fn call_uri(authority: Seq<char>, service_path: Seq<char>) -> Seq<char> {
    "https://"@ + authority + service_path
}

/// Whether a call can be put into an HTTP request: the URI parses, and the token holds no
/// control characters.
pub open spec fn is_sendable(
    authority: Seq<char>,
    service_path: Seq<char>,
    token: Option<Seq<char>>,
) -> bool {
    &&& parsed_uri(call_uri(authority, service_path)) is Ok
    &&& token matches Some(t) ==> is_header_value(t)
}

/// Why a call cannot be put into an HTTP request, in the words of the HTTP library: the URI's
/// error comes first.
pub open spec fn unsendable_text(authority: Seq<char>, service_path: Seq<char>) -> Seq<char> {
    match parsed_uri(call_uri(authority, service_path)) {
        Ok(_) => "failed to parse header value"@,
        Err(text) => text,
    }
}

/// Method, URI and headers of the request that carries a call.
pub open spec fn call_parts(
    authority: Seq<char>,
    service_path: Seq<char>,
    token: Option<Seq<char>>,
) -> (Seq<char>, Seq<char>, Multiset<(Seq<char>, Seq<char>)>) {
    (
        "POST"@,
        parsed_uri(call_uri(authority, service_path))->Ok_0,
        plain_header_texts(token).to_multiset(),
    )
}

/// The headers of a call, counted up one after the other.
pub(crate) proof fn lemma_plain_headers(token: Option<Seq<char>>)
    ensures
        is_plain_header_name("content-type"@),
        is_plain_header_name("te"@),
        is_plain_header_name("grpc-encoding"@),
        is_plain_header_name("user-agent"@),
        is_plain_header_name("authorization"@),
        is_header_value("application/grpc+proto"@),
        is_header_value("trailers"@),
        is_header_value("identity"@),
        is_header_value("construct-engine/0.1.0"@),
        token matches Some(t) ==> is_header_value("Bearer "@ + t) == is_header_value(t),
        plain_header_texts(token).to_multiset() == {
            let fixed = Multiset::<(Seq<char>, Seq<char>)>::empty().insert(
                ("content-type"@, "application/grpc+proto"@),
            ).insert(("te"@, "trailers"@)).insert(("grpc-encoding"@, "identity"@)).insert(
                ("user-agent"@, "construct-engine/0.1.0"@),
            );
            match token {
                Some(t) => fixed.insert(("authorization"@, "Bearer "@ + t)),
                None => fixed,
            }
        },
{
    broadcast use vstd::seq_lib::group_to_multiset_ensures;

    reveal_strlit("content-type");
    reveal_strlit("te");
    reveal_strlit("grpc-encoding");
    reveal_strlit("user-agent");
    reveal_strlit("authorization");
    reveal_strlit("application/grpc+proto");
    reveal_strlit("trailers");
    reveal_strlit("identity");
    reveal_strlit("construct-engine/0.1.0");
    reveal_strlit("Bearer ");
    if let Some(t) = token {
        let bearer = "Bearer "@ + t;
        if is_header_value(bearer) {
            assert forall|i: int| 0 <= i < t.len() implies #[trigger] t[i] as int == 9 || t[i] as int
                >= 32 && t[i] as int != 127 by {
                assert(bearer[i + 7] == t[i]);
            }
        }
    }
    let empty = Seq::<(Seq<char>, Seq<char>)>::empty();
    let a = ("content-type"@, "application/grpc+proto"@);
    let b = ("te"@, "trailers"@);
    let c = ("grpc-encoding"@, "identity"@);
    let d = ("user-agent"@, "construct-engine/0.1.0"@);
    assert(empty.to_multiset() =~= Multiset::<(Seq<char>, Seq<char>)>::empty());
    assert(empty.push(a).push(b).push(c).push(d) =~= seq![a, b, c, d]);
}

/// Builds the request that carries a call. When a part is rejected, the error starts with
/// `fault` and goes on with the HTTP library's text.
pub fn build_call_request(
    authority: &str,
    service_path: &str,
    token: Option<&str>,
    fault: &str,
) -> (r: Result<http::Request<()>, EngineError>)
    ensures
        match r {
            Ok(req) => {
                &&& is_sendable(authority@, service_path@, opt_text(token))
                &&& request_parts(req) == call_parts(authority@, service_path@, opt_text(token))
            },
            Err(e) => {
                &&& !is_sendable(authority@, service_path@, opt_text(token))
                &&& e matches EngineError::Transport { message } && message@ == fault@
                    + unsendable_text(authority@, service_path@)
            },
        },
{
    proof {
        lemma_plain_headers(opt_text(token));
    }
    let uri = String::from_str("https://").concat(authority).concat(service_path);
    let b = with_method(new_builder(), "POST");
    let b = with_uri(b, uri.as_str());
    let b = with_header(b, "content-type", "application/grpc+proto");
    let b = with_header(b, "te", "trailers");
    let b = with_header(b, "grpc-encoding", "identity");
    let b = with_header(b, "user-agent", "construct-engine/0.1.0");
    let b = match token {
        Some(t) => {
            let bearer = String::from_str("Bearer ").concat(t);
            with_header(b, "authorization", bearer.as_str())
        },
        None => b,
    };
    match with_empty_body(b) {
        Ok(req) => Ok(req),
        Err(e) => {
            let text = String::from_str(fault).concat(error_text(&e).as_str());
            Err(EngineError::transport(text.as_str()))
        },
    }
}

} // verus!
