//! Laws of calls: their connection, their steps and what they return.

use bytes::{Bytes, BytesMut};
use vstd::multiset::Multiset;
use vstd::prelude::*;

use crate::buffers::{buffer_content, buffer_limit, bytes_content};
use crate::config::EngineConfig;
use crate::error::EngineError;
use crate::http_types::{
    ascii_text, header_content, is_visible_ascii, parsed_uri, request_parts, status_line,
};
use crate::text::parse_unsigned;
use crate::transport::connection::{
    connect_failure, ConnectStep, QuicConnection, SetupAction, SetupEvent,
    SetupStep,
};
use crate::transport::grpc::{decode_grpc_frame, encode_grpc_frame};
use crate::transport::request::{build_call_request, lemma_plain_headers};
use crate::transport::unary::{
    answered_events, is_run, joined, read_reply, read_trailer_status,
    UnaryAction, UnaryCall, UnaryEvent, UnaryStep, UnaryView,
};
use crate::transport::Transport;

verus! {

// ---- Replies ---------------------------------------------------------------

/// A status other than 0 is an error whatever the body holds: rejected credentials for 16, and
/// for every other code the server's own code and message. A call succeeds only if the server
/// gave no status or the status 0.
pub proof fn law_failed_status_is_an_error(
    code: u32,
    text: String,
    body: BytesMut,
    r: Result<Vec<u8>, EngineError>,
)
    requires
        call_ensures(read_reply, (Some((code, text)), body), r),
    ensures
        r is Ok ==> code == 0,
        code == 16 ==> (r matches Err(EngineError::Unauthenticated { message }) && message@
            == text@),
        code != 0 && code != 16 ==> (r matches Err(EngineError::Grpc { code: c, message }) && c
            == code && message@ == text@),
{
}

/// Without a failed status an empty body is an empty message, and any other body is read as a
/// frame: its message is returned, or the reason why there is none.
pub proof fn law_body_is_read_as_a_frame(
    status: Option<(u32, String)>,
    body: BytesMut,
    r: Result<Vec<u8>, EngineError>,
    data: Bytes,
    decoded: Result<(Bytes, Bytes), EngineError>,
)
    requires
        call_ensures(read_reply, (status, body), r),
        status matches Some((code, _)) ==> code == 0,
        bytes_content(data) == buffer_content(body),
        call_ensures(decode_grpc_frame, (data,), decoded),
    ensures
        buffer_content(body).len() == 0 ==> (r matches Ok(msg) && msg@.len() == 0),
        buffer_content(body).len() > 0 ==> r is Ok == decoded is Ok,
        buffer_content(body).len() > 0 ==> (decoded matches Ok((msg, _)) ==> (r matches Ok(got)
            && got@ == bytes_content(msg))),
        buffer_content(body).len() > 0 ==> (decoded matches Err(EngineError::Transport {
            message: why,
        }) ==> (r matches Err(EngineError::Transport { message }) && message@ == why@)),
        decoded matches Err(e) ==> e is Transport,
{
}

/// A message that the server framed reaches the caller, whatever follows its frame.
pub proof fn law_framed_reply_reaches_the_caller(
    msg: &[u8],
    frame: Bytes,
    rest: Seq<u8>,
    status: Option<(u32, String)>,
    body: BytesMut,
    r: Result<Vec<u8>, EngineError>,
)
    requires
        call_ensures(encode_grpc_frame, (msg,), frame),
        msg@.len() < 0x1_0000_0000,
        buffer_content(body) == bytes_content(frame) + rest,
        status matches Some((code, _)) ==> code == 0,
        call_ensures(read_reply, (status, body), r),
    ensures
        r matches Ok(got) && got@ == msg@,
{
    crate::transport::grpc::law_decode_inverts_encode(msg@, rest);
}

/// Whether a header map holds a text under a name.
pub open spec fn holds_text(
    m: http::HeaderMap<http::HeaderValue>,
    name: Seq<char>,
    text: Seq<char>,
) -> bool {
    &&& header_content(m).dom().contains(name)
    &&& header_content(m)[name].len() == text.len()
    &&& forall|i: int| #![trigger text[i]]
        0 <= i < text.len() ==> header_content(m)[name][i] as int == text[i] as int && (
        text[i] as int == 9 || 32 <= text[i] as int <= 126)
}

/// Whether a header map holds a value under a name that is no text.
pub open spec fn holds_no_text(m: http::HeaderMap<http::HeaderValue>, name: Seq<char>) -> bool {
    &&& header_content(m).dom().contains(name)
    &&& exists|i: int| #![trigger header_content(m)[name][i]]
        0 <= i < header_content(m)[name].len() && (header_content(m)[name][i] >= 127 || (
        header_content(m)[name][i] < 32 && header_content(m)[name][i] != 9))
}

proof fn lemma_holds_text(
    m: http::HeaderMap<http::HeaderValue>,
    name: Seq<char>,
    text: Seq<char>,
)
    requires
        holds_text(m, name, text),
    ensures
        is_visible_ascii(header_content(m)[name]),
        ascii_text(header_content(m)[name]) == text,
{
    let bytes = header_content(m)[name];
    assert forall|i: int| 0 <= i < bytes.len() implies #[trigger] bytes[i] == 9 || 32 <= bytes[i]
        < 127 by {
        assert(text[i] as int == bytes[i] as int);
    }
    assert forall|i: int| 0 <= i < bytes.len() implies #[trigger] ascii_text(bytes)[i] == text[i] by {
        assert(text[i] as int == bytes[i] as int);
    }
    assert(ascii_text(bytes) =~= text);
}

/// The status in trailers is the number under its name, and unknown where there is no value, no
/// text or no number; the message is the text under its name, and empty where there is none.
pub proof fn law_trailers_hold_the_status(
    m: &http::HeaderMap<http::HeaderValue>,
    r: (u32, String),
    value: &str,
    number: Option<u32>,
    text: Seq<char>,
)
    requires
        call_ensures(read_trailer_status, (m,), r),
        call_ensures(parse_unsigned, (value, u32::MAX), number),
    ensures
        holds_text(*m, "grpc-status"@, value@) ==> r.0 == (match number {
            Some(n) => n,
            None => 2,
        }),
        !header_content(*m).dom().contains("grpc-status"@) ==> r.0 == 2,
        holds_no_text(*m, "grpc-status"@) ==> r.0 == 2,
        holds_text(*m, "grpc-message"@, text) ==> r.1@ == text,
        !header_content(*m).dom().contains("grpc-message"@) ==> r.1@.len() == 0,
        holds_no_text(*m, "grpc-message"@) ==> r.1@.len() == 0,
{
    if holds_text(*m, "grpc-status"@, value@) {
        lemma_holds_text(*m, "grpc-status"@, value@);
    }
    if holds_text(*m, "grpc-message"@, text) {
        lemma_holds_text(*m, "grpc-message"@, text);
    }
}

/// A call returns what its trailers' status and its body say: what reading the two gives.
pub proof fn law_call_returns_its_reply(
    call: &mut UnaryCall,
    trailers: Option<http::HeaderMap<http::HeaderValue>>,
    action: UnaryAction,
    status: (u32, String),
    body: BytesMut,
    r: Result<Vec<u8>, EngineError>,
)
    requires
        call_ensures(UnaryCall::on_event, (call, UnaryEvent::Trailers(trailers)), action),
        trailers matches Some(m) ==> call_ensures(read_trailer_status, (&m,), status),
        buffer_content(body) == call@.body,
        call_ensures(
            read_reply,
            (
                if trailers is Some {
                    Some(status)
                } else {
                    None
                },
                body,
            ),
            r,
        ),
    ensures
        final(call)@.step == UnaryStep::Returned,
        action is Return,
        action->Return_0 is Ok == r is Ok,
        r matches Ok(msg) ==> (action->Return_0 matches Ok(got) && got@ == msg@),
        r matches Err(EngineError::Unauthenticated { message: text }) ==> (
        action->Return_0 matches Err(EngineError::Unauthenticated { message }) && message@ == text@),
        r matches Err(EngineError::Grpc { code, message: text }) ==> (
        action->Return_0 matches Err(EngineError::Grpc { code: c, message }) && c == code && message@
            == text@),
        r matches Err(EngineError::Transport { message: text }) ==> (
        action->Return_0 matches Err(EngineError::Transport { message }) && message@ == text@),
        r matches Err(e) ==> e is Unauthenticated || e is Grpc || e is Transport,
{
}

// ---- The steps of a call ---------------------------------------------------

/// A call starts with the request for its path and its message framed, and with nothing received.
pub proof fn law_call_starts_with_its_request(
    authority: &str,
    path: &str,
    msg: &[u8],
    token: Option<&str>,
    r: Result<(UnaryCall, http::Request<()>), EngineError>,
    frame: Bytes,
    built: Result<http::Request<()>, EngineError>,
    fault: &str,
)
    requires
        call_ensures(UnaryCall::start, (authority, path, msg, token), r),
        call_ensures(encode_grpc_frame, (msg,), frame),
        fault@ == "build request: "@,
        call_ensures(build_call_request, (authority, path, token, fault), built),
    ensures
        r is Ok == built is Ok,
        r matches Ok((call, req)) ==> {
            &&& call@.step == UnaryStep::SendRequest
            &&& call@.path == path@
            &&& call@.frame == Some(bytes_content(frame))
            &&& call@.body.len() == 0
            &&& built matches Ok(req2) && request_parts(req) == request_parts(req2)
        },
        r matches Err(e) ==> (built matches Err(EngineError::Transport { message: why })
            && e matches EngineError::Transport { message } && message@ == why@),
{
}

/// The steps of a call follow one another: the request head, the frame, the end of the request,
/// the response head, then the body. What is sent is the frame that the call started with.
pub proof fn law_call_sends_in_order(call: &mut UnaryCall, action: UnaryAction)
    requires
        call_ensures(UnaryCall::on_event, (call, UnaryEvent::Done), action),
    ensures
        final(call)@.path == old(call)@.path,
        final(call)@.body == old(call)@.body,
        old(call)@.step == UnaryStep::SendRequest ==> final(call)@.step == UnaryStep::SendData
            && final(call)@.frame is None && (action matches UnaryAction::SendData(data) && old(
            call,
        )@.frame == Some(bytes_content(data))),
        old(call)@.step == UnaryStep::SendData ==> final(call)@.step == UnaryStep::Finish && action
            is Finish && final(call)@.frame == old(call)@.frame,
        old(call)@.step == UnaryStep::Finish ==> final(call)@.step == UnaryStep::RecvResponse
            && action is RecvResponse && final(call)@.frame == old(call)@.frame,
{
}

/// Only the HTTP status 200 lets a call go on to the body; every other one ends it, with the
/// status and the path in the error.
pub proof fn law_http_status_decides(call: &mut UnaryCall, code: u16, action: UnaryAction)
    requires
        call_ensures(UnaryCall::on_event, (call, UnaryEvent::Response(code)), action),
    ensures
        final(call)@.path == old(call)@.path,
        final(call)@.body == old(call)@.body,
        final(call)@.frame == old(call)@.frame,
        code == 200 ==> final(call)@.step == UnaryStep::RecvData && action is RecvData,
        code != 200 ==> final(call)@.step == UnaryStep::Returned && (
        action matches UnaryAction::Return(Err(EngineError::Transport { message })) && message@
            == "HTTP "@ + status_line(code) + " from '"@ + old(call)@.path + "'"@),
{
}

/// A piece of the body is added behind the pieces before it; the end of the body is followed by
/// the trailers.
pub proof fn law_body_grows_piece_by_piece(
    call: &mut UnaryCall,
    data: Bytes,
    action: UnaryAction,
    call2: &mut UnaryCall,
    action2: UnaryAction,
)
    requires
        call_ensures(UnaryCall::on_event, (call, UnaryEvent::Chunk(data)), action),
        call_ensures(UnaryCall::on_event, (call2, UnaryEvent::End), action2),
    ensures
        final(call)@.step == UnaryStep::RecvData,
        final(call)@.path == old(call)@.path,
        final(call)@.frame == old(call)@.frame,
        final(call)@.body.len() == old(call)@.body.len() + bytes_content(data).len(),
        final(call)@.body.take(old(call)@.body.len() as int) =~= old(call)@.body,
        final(call)@.body.skip(old(call)@.body.len() as int) =~= bytes_content(data),
        action is RecvData,
        final(call2)@.step == UnaryStep::RecvTrailers,
        final(call2)@.path == old(call2)@.path,
        final(call2)@.frame == old(call2)@.frame,
        final(call2)@.body == old(call2)@.body,
        action2 is RecvTrailers,
{
}

/// A step that fails ends the call; the error names the step and gives the cause.
pub proof fn law_failed_step_ends_the_call(call: &mut UnaryCall, cause: String, action: UnaryAction)
    requires
        call_ensures(UnaryCall::on_event, (call, UnaryEvent::Failed(cause)), action),
    ensures
        final(call)@.step == UnaryStep::Returned,
        final(call)@.path == old(call)@.path,
        action matches UnaryAction::Return(Err(EngineError::Transport { message })) && {
            let step = old(call)@.step;
            &&& step == UnaryStep::SendRequest ==> message@ == "send_request '"@ + old(call)@.path
                + "': "@ + cause@
            &&& step == UnaryStep::SendData ==> message@ == "send_data: "@ + cause@
            &&& step == UnaryStep::Finish ==> message@ == "finish: "@ + cause@
            &&& step == UnaryStep::RecvResponse ==> message@ == "recv_response: "@ + cause@
            &&& step == UnaryStep::RecvData ==> message@ == "recv_data: "@ + cause@
            &&& step == UnaryStep::RecvTrailers ==> message@ == "recv_trailers: "@ + cause@
        },
{
}

/// A call can say which step it waits for, and takes in a piece of the body as long as the body
/// stays within the limit of a buffer.
pub proof fn law_call_knows_its_step_and_room(
    call: &UnaryCall,
    data: &Bytes,
    step: UnaryStep,
    room: bool,
)
    requires
        call_ensures(UnaryCall::step, (call,), step),
        call_ensures(UnaryCall::has_room_for, (call, data), room),
    ensures
        step == call@.step,
        room <==> call@.body.len() + bytes_content(*data).len() <= buffer_limit(),
{
}

/// The pieces that a body came in, put together.
pub open spec fn piece_bytes(chunks: Seq<Bytes>) -> Seq<u8> {
    chunks.map_values(|c: Bytes| bytes_content(c)).flatten()
}

proof fn lemma_pieces(chunks: Seq<Bytes>)
    ensures
        joined(chunks) == piece_bytes(chunks),
    decreases chunks.len(),
{
    let parts = chunks.map_values(|c: Bytes| bytes_content(c));
    parts.lemma_flatten_and_flatten_alt_are_equivalent();
    if chunks.len() > 0 {
        let shorter = chunks.drop_last();
        let parts2 = shorter.map_values(|c: Bytes| bytes_content(c));
        lemma_pieces(shorter);
        parts2.lemma_flatten_and_flatten_alt_are_equivalent();
        assert(parts.drop_last() =~= parts2);
        assert(parts.last() == bytes_content(chunks.last()));
        assert(parts.flatten_alt() == parts2.flatten_alt() + bytes_content(chunks.last()));
    }
}

/// A call whose server answers with status 0, or none, and a framed message returns that message,
/// in however many pieces the frame came.
pub proof fn law_whole_call_returns_the_message(
    states: Seq<UnaryView>,
    actions: Seq<UnaryAction>,
    chunks: Seq<Bytes>,
    trailers: Option<http::HeaderMap<http::HeaderValue>>,
    msg: &[u8],
    frame: Bytes,
    rest: Seq<u8>,
    status: (u32, String),
)
    requires
        is_run(states, answered_events(chunks, trailers), actions),
        states[0].step == UnaryStep::SendRequest,
        states[0].body.len() == 0,
        call_ensures(encode_grpc_frame, (msg,), frame),
        msg@.len() < 0x1_0000_0000,
        piece_bytes(chunks) == bytes_content(frame) + rest,
        trailers matches Some(m) ==> call_ensures(read_trailer_status, (&m,), status) && status.0
            == 0,
    ensures
        actions.last() matches UnaryAction::Return(Ok(got)) && got@ == msg@,
        actions[0] matches UnaryAction::SendData(sent) && states[0].frame == Some(
            bytes_content(sent),
        ),
{
    let events = answered_events(chunks, trailers);
    assert(states[0].body =~= Seq::<u8>::empty());
    crate::transport::unary::law_answered_call_returns_reply(
        states,
        events,
        actions,
        chunks,
        trailers,
    );
    lemma_pieces(chunks);
    crate::transport::grpc::law_decode_inverts_encode(msg@, rest);
    assert(events[0] is Done);
}

/// A call whose server answers with a status other than 0 and 16 returns that status and its
/// message as the error, whatever the body holds.
pub proof fn law_whole_call_returns_the_status(
    states: Seq<UnaryView>,
    actions: Seq<UnaryAction>,
    chunks: Seq<Bytes>,
    m: http::HeaderMap<http::HeaderValue>,
    status: (u32, String),
)
    requires
        is_run(states, answered_events(chunks, Some(m)), actions),
        states[0].step == UnaryStep::SendRequest,
        states[0].body.len() == 0,
        call_ensures(read_trailer_status, (&m,), status),
        status.0 != 0,
    ensures
        status.0 != 16 ==> (actions.last() matches UnaryAction::Return(
            Err(EngineError::Grpc { code, message }),
        ) && code == status.0 && message@ == status.1@),
        status.0 == 16 ==> (actions.last() matches UnaryAction::Return(
            Err(EngineError::Unauthenticated { message }),
        ) && message@ == status.1@),
{
    assert(states[0].body =~= Seq::<u8>::empty());
    crate::transport::unary::law_answered_call_returns_reply(
        states,
        answered_events(chunks, Some(m)),
        actions,
        chunks,
        Some(m),
    );
}

// ---- The transport ---------------------------------------------------------

/// A new transport has its configuration, the configured token and no connection.
pub proof fn law_new_transport(config: EngineConfig, t: Transport, kept: &EngineConfig, needs: bool)
    requires
        call_ensures(Transport::new, (config,), t),
        call_ensures(Transport::config, (&t,), kept),
        call_ensures(Transport::needs_connection, (&t,), needs),
    ensures
        *kept == config,
        needs,
        t@.config == config,
        t@.token == config.auth_token,
        !t@.connected,
{
}

/// A transport needs a connection until one was made, and again after a call that failed in
/// transport; a failed attempt changes nothing, and no other outcome of a call drops the
/// connection.
pub proof fn law_connection_is_kept_until_it_fails(
    t: &mut Transport,
    outcome: Result<(), (ConnectStep, String)>,
    made: Result<(), EngineError>,
    t2: &mut Transport,
    result: &Result<Vec<u8>, EngineError>,
    before: bool,
    after: bool,
)
    requires
        call_ensures(Transport::connect_h3, (t, outcome), made),
        call_ensures(Transport::after_call, (t2, result), ()),
        call_ensures(Transport::needs_connection, (&*t2,), before),
        call_ensures(Transport::needs_connection, (&*final(t2),), after),
    ensures
        made is Ok == outcome is Ok,
        final(t)@.config == old(t)@.config && final(t)@.token == old(t)@.token,
        final(t)@.connected == (outcome is Ok || old(t)@.connected),
        after == (before || (*result matches Err(e) && e is Transport)),
        before == !old(t2)@.connected && after == !final(t2)@.connected,
        final(t2)@.config == old(t2)@.config && final(t2)@.token == old(t2)@.token,
{
}

/// A failed connection attempt names the step that failed and gives the cause.
pub proof fn law_failed_connection_names_its_step(
    t: &mut Transport,
    step: ConnectStep,
    cause: String,
    made: Result<(), EngineError>,
    text: &str,
    error: EngineError,
)
    requires
        call_ensures(Transport::connect_h3, (t, Err((step, cause))), made),
        text@ == cause@,
        call_ensures(connect_failure, (step, text), error),
    ensures
        made matches Err(EngineError::Transport { message }) && (
        error matches EngineError::Transport { message: same } && message@ == same@) && {
            &&& step is Connect ==> message@ == "connect: "@ + cause@
            &&& step is Handshake ==> message@ == "handshake: "@ + cause@
            &&& step is H3Init ==> message@ == "h3 client init: "@ + cause@
        },
{
}

/// The token that was set last travels with every call, and none after it was cleared: setting or
/// clearing it changes nothing else, and calls carry it as the bearer token.
pub proof fn law_last_token_travels(
    t: &mut Transport,
    token: String,
    t2: &mut Transport,
    path: &str,
    msg: &[u8],
    r: Result<(UnaryCall, http::Request<()>), EngineError>,
    cleared: &mut Transport,
    t3: &mut Transport,
    r3: Result<(UnaryCall, http::Request<()>), EngineError>,
)
    requires
        call_ensures(Transport::set_token, (t, token), ()),
        *t2 == *final(t),
        call_ensures(Transport::unary_call, (t2, path, msg), r),
        call_ensures(Transport::clear_token, (cleared,), ()),
        *t3 == *final(cleared),
        call_ensures(Transport::unary_call, (t3, path, msg), r3),
    ensures
        final(t)@.config == old(t)@.config && final(t)@.connected == old(t)@.connected,
        final(t)@.token matches Some(kept) && kept == token,
        final(cleared)@.config == old(cleared)@.config && final(cleared)@.connected == old(
            cleared,
        )@.connected,
        final(cleared)@.token is None,
        r matches Ok((_, req)) ==> request_parts(req).2 == four_headers().insert(
            ("authorization"@, "Bearer "@ + token@),
        ),
        r3 matches Ok((_, req)) ==> request_parts(req).2 == four_headers(),
{
    lemma_plain_headers(Some(token@));
    lemma_plain_headers(None);
}

/// The headers that every gRPC request has.
pub open spec fn four_headers() -> Multiset<(Seq<char>, Seq<char>)> {
    Multiset::<(Seq<char>, Seq<char>)>::empty().insert(
        ("content-type"@, "application/grpc+proto"@),
    ).insert(("te"@, "trailers"@)).insert(("grpc-encoding"@, "identity"@)).insert(
        ("user-agent"@, "construct-engine/0.1.0"@),
    )
}

/// A call goes to its path at the configured server, over a connection; without one it fails, and
/// a call that cannot be made a request drops the connection.
pub proof fn law_call_goes_to_the_server(
    t: &mut Transport,
    path: &str,
    msg: &[u8],
    r: Result<(UnaryCall, http::Request<()>), EngineError>,
    addr: String,
    authority: &str,
    token: Option<&str>,
    r2: Result<(UnaryCall, http::Request<()>), EngineError>,
)
    requires
        call_ensures(Transport::unary_call, (t, path, msg), r),
        call_ensures(EngineConfig::server_addr, (&t@.config,), addr),
        authority@ == addr@,
        token is Some == t@.token is Some,
        t@.token matches Some(kept) ==> kept@ == token->0@,
        call_ensures(UnaryCall::start, (authority, path, msg, token), r2),
    ensures
        final(t)@.config == old(t)@.config && final(t)@.token == old(t)@.token,
        !old(t)@.connected ==> !final(t)@.connected && (r matches Err(
            EngineError::Transport { message },
        ) && message@ == "H3 not connected"@),
        old(t)@.connected ==> {
            &&& r is Ok == r2 is Ok
            &&& final(t)@.connected == r is Ok
            &&& r matches Ok((call, req)) ==> (r2 matches Ok((call2, req2)) && call@ == call2@
                && request_parts(req) == request_parts(req2))
            &&& r matches Err(e) ==> (e matches EngineError::Transport { message } && (
            r2 matches Err(EngineError::Transport { message: why }) && message@ == why@))
        },
        r matches Ok((_, req)) ==> request_parts(req).0 == "POST"@ && parsed_uri(
            "https://"@ + addr@ + path@,
        ) == Ok::<Seq<char>, Seq<char>>(request_parts(req).1),
{
}

// ---- Setting up the endpoint -----------------------------------------------

/// The setup is for the configured server. Root certificates are loaded if certificates are to be
/// verified; if not, any certificate is accepted.
pub proof fn law_setup_starts(
    config: &EngineConfig,
    r: (QuicConnection, SetupAction),
    addr: String,
    name: &str,
    step: SetupStep,
)
    requires
        call_ensures(QuicConnection::new, (config,), r),
        call_ensures(EngineConfig::server_addr, (config,), addr),
        call_ensures(QuicConnection::server_name, (&r.0,), name),
        call_ensures(QuicConnection::step, (&r.0,), step),
    ensures
        name@ == config.server_host@,
        r.0@.server_name == config.server_host@,
        r.0@.host_port == addr@,
        r.0@.step == step,
        config.verify_certs ==> r.1 is LoadNativeCerts && step is LoadNativeCerts && r.0@.trust
            is SystemAndBundledRoots,
        !config.verify_certs ==> step is BuildConfig && r.0@.trust is AnyCertificate && (
        r.1 matches SetupAction::BuildConfig(trust) && trust is AnyCertificate),
{
}

/// The setup goes step by step: certificates are loaded and added, the client configuration is
/// built to trust what it was set up to trust, the endpoint is bound, and the server's address is
/// resolved. What the setup is for does not change.
pub proof fn law_setup_goes_step_by_step(c: &mut QuicConnection, action: SetupAction)
    requires
        call_ensures(QuicConnection::on_event, (c, SetupEvent::Done), action),
    ensures
        final(c)@.server_name == old(c)@.server_name,
        final(c)@.host_port == old(c)@.host_port,
        final(c)@.trust == old(c)@.trust,
        old(c)@.step is LoadNativeCerts ==> action is AddCerts && final(c)@.step is AddCerts,
        old(c)@.step is AddCerts ==> final(c)@.step is BuildConfig && (
        action matches SetupAction::BuildConfig(trust) && trust == old(c)@.trust),
        old(c)@.step is BuildConfig ==> action is Bind && final(c)@.step is Bind,
        old(c)@.step is Bind ==> final(c)@.step is Resolve && (action matches SetupAction::Resolve(
            name,
        ) && name@ == old(c)@.host_port),
{
}

/// The endpoint connects to the first address that the server has; a server without addresses,
/// and any failed step, ends the setup with an error that says what failed.
pub proof fn law_setup_ends(
    c: &mut QuicConnection,
    addresses: Vec<String>,
    action: SetupAction,
    c2: &mut QuicConnection,
    cause: String,
    action2: SetupAction,
)
    requires
        call_ensures(QuicConnection::on_event, (c, SetupEvent::Resolved(addresses)), action),
        call_ensures(QuicConnection::on_event, (c2, SetupEvent::Failed(cause)), action2),
    ensures
        final(c)@.step is Ended && final(c2)@.step is Ended,
        final(c)@.host_port == old(c)@.host_port && final(c)@.server_name == old(c)@.server_name
            && final(c)@.trust == old(c)@.trust,
        addresses@.len() > 0 ==> (action matches SetupAction::Ready(address) && address
            == addresses@[0]),
        addresses@.len() == 0 ==> (action matches SetupAction::Fail(
            EngineError::Transport { message },
        ) && message@ == "no addresses for '"@ + old(c)@.host_port + "'"@),
        action2 matches SetupAction::Fail(e) && {
            &&& old(c2)@.step is LoadNativeCerts ==> (e matches EngineError::Tls { message }
                && message@ == "native certs: "@ + cause@)
            &&& old(c2)@.step is AddCerts ==> (e matches EngineError::Tls { message } && message@
                == "add cert: "@ + cause@)
            &&& old(c2)@.step is BuildConfig ==> (e matches EngineError::Tls { message } && message@
                == "QuicClientConfig: "@ + cause@)
            &&& old(c2)@.step is Bind ==> (e matches EngineError::Transport { message } && message@
                == "endpoint bind: "@ + cause@)
            &&& old(c2)@.step is Resolve ==> (e matches EngineError::Transport { message }
                && message@ == "DNS resolve '"@ + old(c2)@.host_port + "': "@ + cause@)
        },
{
}

} // verus!
