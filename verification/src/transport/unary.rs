//! One gRPC unary call as a state machine.
//!
//! A driver performs the I/O that the machine asks for and reports each outcome as an event.
//! The machine sends the request frame, checks the HTTP status, collects the body, reads the
//! trailers and decides what the call returns.

use bytes::{Bytes, BytesMut};
use vstd::prelude::*;
use vstd::string::*;

use crate::buffers::{as_slice, buffer_content, buffer_limit, bytes_content};
use crate::error::EngineError;
use crate::http_types::{
    header_text, header_text_of, request_parts, status_line, status_line_text,
};
use crate::text::parse_unsigned;
use crate::transport::grpc::{
    decode_grpc_frame, encode_grpc_frame, frame_fault, frame_message, frame_of, opt_text,
    starts_with_frame, status_code_of, status_message_of, GrpcStatus,
};
use crate::transport::request::{build_call_request, call_parts, is_sendable, unsendable_text};

verus! {

/// What a call is waiting for.
#[derive(Debug, Clone, Copy, PartialEq, Eq, Structural)]
pub enum UnaryStep {
    /// The request head is being sent.
    SendRequest,
    /// The request frame is being sent.
    SendData,
    /// The send side is being closed.
    Finish,
    /// The response head is awaited.
    RecvResponse,
    /// The next piece of the body is awaited.
    RecvData,
    /// The trailers are awaited.
    RecvTrailers,
    /// The call has returned.
    Returned,
}

/// What the driver reports.
pub enum UnaryEvent {
    /// The send step succeeded.
    Done,
    /// The response head arrived with this HTTP status code.
    Response(u16),
    /// A piece of the body arrived.
    Chunk(Bytes),
    /// The body is complete.
    End,
    /// The trailers arrived, if there are any.
    Trailers(Option<http::HeaderMap<http::HeaderValue>>),
    /// The step failed, with this description.
    Failed(String),
}

/// What the driver does next.
pub enum UnaryAction {
    /// Send this frame.
    SendData(Bytes),
    /// Close the send side.
    Finish,
    /// Wait for the response head.
    RecvResponse,
    /// Wait for the next piece of the body.
    RecvData,
    /// Wait for the trailers.
    RecvTrailers,
    /// Hand this to the caller.
    Return(Result<Vec<u8>, EngineError>),
}

/// A unary call in progress.
pub struct UnaryCall {
    step: UnaryStep,
    path: String,
    frame: Option<Bytes>,
    body: BytesMut,
}

/// The state of a call as the contracts see it.
pub struct UnaryView {
    pub step: UnaryStep,
    pub path: Seq<char>,
    /// The request frame, until it is sent.
    pub frame: Option<Seq<u8>>,
    /// The response body so far.
    pub body: Seq<u8>,
}

/// The error text of a failed step.
pub open spec fn failure_text(step: UnaryStep, path: Seq<char>, cause: Seq<char>) -> Seq<char> {
    match step {
        UnaryStep::SendRequest => "send_request '"@ + path + "': "@ + cause,
        UnaryStep::SendData => "send_data: "@ + cause,
        UnaryStep::Finish => "finish: "@ + cause,
        UnaryStep::RecvResponse => "recv_response: "@ + cause,
        UnaryStep::RecvData => "recv_data: "@ + cause,
        _ => "recv_trailers: "@ + cause,
    }
}

/// Status code and message of optional trailers.
pub open spec fn trailer_status(
    trailers: Option<http::HeaderMap<http::HeaderValue>>,
) -> Option<(nat, Seq<char>)> {
    match trailers {
        Some(t) => Some(
            (
                status_code_of(header_text_of(t, "grpc-status"@)),
                status_message_of(header_text_of(t, "grpc-message"@)),
            ),
        ),
        None => None,
    }
}

/// What a call returns once status and body are known: the server's error if there is one,
/// else nothing for an empty body, else the message of the first frame.
pub open spec fn is_reply(
    status: Option<(nat, Seq<char>)>,
    body: Seq<u8>,
    r: Result<Vec<u8>, EngineError>,
) -> bool {
    let refused = match status {
        Some((code, _)) => code != 0,
        None => false,
    };
    if refused {
        let (code, text) = status->0;
        if code == 16 {
            r matches Err(EngineError::Unauthenticated { message }) && message@ == text
        } else {
            r matches Err(EngineError::Grpc { code: c, message }) && c == code && message@ == text
        }
    } else if body.len() == 0 {
        r matches Ok(msg) && msg@ == Seq::<u8>::empty()
    } else if starts_with_frame(body) {
        r matches Ok(msg) && msg@ == frame_message(body)
    } else {
        r matches Err(EngineError::Transport { message }) && message@ == frame_fault(body)
    }
}

/// Whether an event can be the outcome of what a call is waiting for.
pub open spec fn event_fits(call: UnaryView, event: UnaryEvent) -> bool {
    match event {
        UnaryEvent::Done => call.step == UnaryStep::SendRequest || call.step == UnaryStep::SendData
            || call.step == UnaryStep::Finish,
        UnaryEvent::Response(code) => call.step == UnaryStep::RecvResponse && 100 <= code <= 999,
        UnaryEvent::Chunk(data) => call.step == UnaryStep::RecvData && call.body.len()
            + bytes_content(data).len() <= buffer_limit(),
        UnaryEvent::End => call.step == UnaryStep::RecvData,
        UnaryEvent::Trailers(_) => call.step == UnaryStep::RecvTrailers,
        UnaryEvent::Failed(_) => call.step != UnaryStep::Returned,
    }
}

/// How a call moves on from one event.
pub open spec fn is_step(
    pre: UnaryView,
    event: UnaryEvent,
    post: UnaryView,
    action: UnaryAction,
) -> bool {
    &&& post.path == pre.path
    &&& match event {
        UnaryEvent::Done => {
            &&& post.body == pre.body
            &&& match pre.step {
                UnaryStep::SendRequest => {
                    &&& post.step == UnaryStep::SendData
                    &&& post.frame is None
                    &&& action matches UnaryAction::SendData(data) && pre.frame == Some(
                        bytes_content(data),
                    )
                },
                UnaryStep::SendData => {
                    &&& post.step == UnaryStep::Finish
                    &&& post.frame == pre.frame
                    &&& action is Finish
                },
                _ => {
                    &&& post.step == UnaryStep::RecvResponse
                    &&& post.frame == pre.frame
                    &&& action is RecvResponse
                },
            }
        },
        UnaryEvent::Response(code) => {
            &&& post.frame == pre.frame
            &&& post.body == pre.body
            &&& if code == 200 {
                post.step == UnaryStep::RecvData && action is RecvData
            } else {
                &&& post.step == UnaryStep::Returned
                &&& action matches UnaryAction::Return(Err(EngineError::Transport { message }))
                    && message@ == "HTTP "@ + status_line(code) + " from '"@ + pre.path + "'"@
            }
        },
        UnaryEvent::Chunk(data) => {
            &&& post.step == UnaryStep::RecvData
            &&& post.frame == pre.frame
            &&& post.body == pre.body + bytes_content(data)
            &&& action is RecvData
        },
        UnaryEvent::End => {
            &&& post.step == UnaryStep::RecvTrailers
            &&& post.frame == pre.frame
            &&& post.body == pre.body
            &&& action is RecvTrailers
        },
        UnaryEvent::Trailers(trailers) => {
            &&& post.step == UnaryStep::Returned
            &&& action matches UnaryAction::Return(r) && is_reply(
                trailer_status(trailers),
                pre.body,
                r,
            )
        },
        UnaryEvent::Failed(cause) => {
            &&& post.step == UnaryStep::Returned
            &&& action matches UnaryAction::Return(Err(EngineError::Transport { message }))
                && message@ == failure_text(pre.step, pre.path, cause@)
        },
    }
}

/// Decides what a call returns from the status that its trailers gave, if any, and its body.
pub fn read_reply(status: Option<(u32, String)>, body: BytesMut) -> (r: Result<
    Vec<u8>,
    EngineError,
>)
    ensures
        is_reply(
            match status {
                Some((code, message)) => Some((code as nat, message@)),
                None => None,
            },
            buffer_content(body),
            r,
        ),
{
    if let Some((code, message)) = status {
        let parsed = GrpcStatus::from_code(code);
        if !parsed.is_ok() {
            if parsed.is_unauthenticated() {
                return Err(EngineError::unauthenticated(message.as_str()));
            }
            return Err(EngineError::grpc(code, message.as_str()));
        }
    }
    if body.len() == 0 {
        return Ok(Vec::new());
    }
    match decode_grpc_frame(body.freeze()) {
        Ok((msg, _)) => Ok(vstd::slice::slice_to_vec(as_slice(&msg))),
        Err(e) => Err(e),
    }
}

/// Reads status code and message of trailers: code 2 (Unknown) when there is none or it is no
/// number.
pub fn read_trailer_status(trailers: &http::HeaderMap<http::HeaderValue>) -> (r: (u32, String))
    ensures
        Some((r.0 as nat, r.1@)) == trailer_status(Some(*trailers)),
{
    proof {
        reveal_strlit("grpc-status");
        reveal_strlit("grpc-message");
    }
    let code = match header_text(trailers, "grpc-status") {
        Some(text) => match parse_unsigned(text, u32::MAX) {
            Some(n) => n,
            None => 2,
        },
        None => 2,
    };
    let message = match header_text(trailers, "grpc-message") {
        Some(text) => String::from_str(text),
        None => String::new(),
    };
    (code, message)
}

impl View for UnaryCall {
    type V = UnaryView;

    closed spec fn view(&self) -> UnaryView {
        UnaryView {
            step: self.step,
            path: self.path@,
            frame: match self.frame {
                Some(f) => Some(bytes_content(f)),
                None => None,
            },
            body: buffer_content(self.body),
        }
    }
}

impl UnaryCall {
    /// Whether the call is consistent: the frame is kept until the request head is out.
    pub open spec fn well_formed(&self) -> bool {
        self@.step == UnaryStep::SendRequest ==> self@.frame is Some
    }

    /// Starts a call: the request to send first, and the machine that awaits its outcome.
    pub fn start(
        authority: &str,
        service_path: &str,
        request_bytes: &[u8],
        token: Option<&str>,
    ) -> (r: Result<(UnaryCall, http::Request<()>), EngineError>)
        requires
            request_bytes@.len() + 5 <= buffer_limit(),
        ensures
            match r {
                Ok((call, req)) => {
                    &&& call.well_formed()
                    &&& is_sendable(authority@, service_path@, opt_text(token))
                    &&& request_parts(req) == call_parts(
                        authority@,
                        service_path@,
                        opt_text(token),
                    )
                    &&& call@ == (UnaryView {
                        step: UnaryStep::SendRequest,
                        path: service_path@,
                        frame: Some(frame_of(request_bytes@)),
                        body: Seq::empty(),
                    })
                },
                Err(e) => {
                    &&& !is_sendable(authority@, service_path@, opt_text(token))
                    &&& e matches EngineError::Transport { message } && message@
                        == "build request: "@ + unsendable_text(authority@, service_path@)
                },
            },
    {
        match build_call_request(authority, service_path, token, "build request: ") {
            Ok(req) => {
                let call = UnaryCall {
                    step: UnaryStep::SendRequest,
                    path: String::from_str(service_path),
                    frame: Some(encode_grpc_frame(request_bytes)),
                    body: BytesMut::new(),
                };
                Ok((call, req))
            },
            Err(e) => Err(e),
        }
    }

    /// What the call is waiting for.
    pub fn step(&self) -> (step: UnaryStep)
        ensures
            step == self@.step,
    {
        self.step
    }

    /// Whether a piece of the body can still be taken in.
    pub fn has_room_for(&self, data: &Bytes) -> (b: bool)
        ensures
            b == (self@.body.len() + bytes_content(*data).len() <= buffer_limit()),
    {
        let limit: usize = isize::MAX as usize / 4;
        let have = self.body.len();
        have <= limit && data.len() <= limit - have
    }

    /// Moves the call on: takes the outcome of the last action and says what to do next.
    pub fn on_event(&mut self, event: UnaryEvent) -> (action: UnaryAction)
        requires
            old(self).well_formed(),
            event_fits(old(self)@, event),
        ensures
            final(self).well_formed(),
            is_step(old(self)@, event, final(self)@, action),
    {
        match event {
            UnaryEvent::Done => match self.step {
                UnaryStep::SendRequest => {
                    let frame = self.frame.take();
                    self.step = UnaryStep::SendData;
                    UnaryAction::SendData(frame.unwrap())
                },
                UnaryStep::SendData => {
                    self.step = UnaryStep::Finish;
                    UnaryAction::Finish
                },
                _ => {
                    self.step = UnaryStep::RecvResponse;
                    UnaryAction::RecvResponse
                },
            },
            UnaryEvent::Response(code) => {
                if code == 200 {
                    self.step = UnaryStep::RecvData;
                    UnaryAction::RecvData
                } else {
                    let text = String::from_str("HTTP ").concat(
                        status_line_text(code).as_str(),
                    ).concat(" from '").concat(self.path.as_str()).concat("'");
                    self.step = UnaryStep::Returned;
                    UnaryAction::Return(Err(EngineError::transport(text.as_str())))
                }
            },
            UnaryEvent::Chunk(data) => {
                self.body.extend_from_slice(as_slice(&data));
                UnaryAction::RecvData
            },
            UnaryEvent::End => {
                self.step = UnaryStep::RecvTrailers;
                UnaryAction::RecvTrailers
            },
            UnaryEvent::Trailers(trailers) => {
                let status = match trailers {
                    Some(t) => Some(read_trailer_status(&t)),
                    None => None,
                };
                let mut body = BytesMut::new();
                core::mem::swap(&mut body, &mut self.body);
                self.step = UnaryStep::Returned;
                UnaryAction::Return(read_reply(status, body))
            },
            UnaryEvent::Failed(cause) => {
                let text = match self.step {
                    UnaryStep::SendRequest => String::from_str("send_request '").concat(
                        self.path.as_str(),
                    ).concat("': ").concat(cause.as_str()),
                    UnaryStep::SendData => String::from_str("send_data: ").concat(cause.as_str()),
                    UnaryStep::Finish => String::from_str("finish: ").concat(cause.as_str()),
                    UnaryStep::RecvResponse => String::from_str("recv_response: ").concat(
                        cause.as_str(),
                    ),
                    UnaryStep::RecvData => String::from_str("recv_data: ").concat(cause.as_str()),
                    _ => String::from_str("recv_trailers: ").concat(cause.as_str()),
                };
                self.step = UnaryStep::Returned;
                UnaryAction::Return(Err(EngineError::transport(text.as_str())))
            },
        }
    }
}

// ---- Whole calls -----------------------------------------------------------

/// The bytes of pieces put together.
pub open spec fn joined(chunks: Seq<Bytes>) -> Seq<u8>
    decreases chunks.len(),
{
    if chunks.len() == 0 {
        Seq::empty()
    } else {
        joined(chunks.drop_last()) + bytes_content(chunks.last())
    }
}

/// Whether a call went through these states on these events, answering each with an action.
pub open spec fn is_run(
    states: Seq<UnaryView>,
    events: Seq<UnaryEvent>,
    actions: Seq<UnaryAction>,
) -> bool {
    &&& states.len() == events.len() + 1
    &&& actions.len() == events.len()
    &&& forall|i: int| #![trigger events[i]]
        0 <= i < events.len() ==> event_fits(states[i], events[i]) && is_step(
            states[i],
            events[i],
            states[i + 1],
            actions[i],
        )
}

/// The events of a call in which every step works and the server answers with HTTP 200.
pub open spec fn answered_events(
    chunks: Seq<Bytes>,
    trailers: Option<http::HeaderMap<http::HeaderValue>>,
) -> Seq<UnaryEvent> {
    seq![UnaryEvent::Done, UnaryEvent::Done, UnaryEvent::Done, UnaryEvent::Response(200)]
        + chunks.map_values(|c: Bytes| UnaryEvent::Chunk(c)) + seq![
        UnaryEvent::End,
        UnaryEvent::Trailers(trailers),
    ]
}

/// While the body arrives, the call holds the pieces so far.
proof fn lemma_body_so_far(
    states: Seq<UnaryView>,
    events: Seq<UnaryEvent>,
    actions: Seq<UnaryAction>,
    chunks: Seq<Bytes>,
    trailers: Option<http::HeaderMap<http::HeaderValue>>,
    k: int,
)
    requires
        is_run(states, events, actions),
        events == answered_events(chunks, trailers),
        states[0].step == UnaryStep::SendRequest,
        states[0].body == Seq::<u8>::empty(),
        0 <= k <= chunks.len(),
    ensures
        states[4 + k].step == UnaryStep::RecvData,
        states[4 + k].body == joined(chunks.take(k)),
    decreases k,
{
    if k == 0 {
        assert(events[0] is Done);
        assert(events[1] is Done);
        assert(events[2] is Done);
        assert(events[3] == UnaryEvent::Response(200));
        assert(chunks.take(0) =~= Seq::empty());
    } else {
        lemma_body_so_far(states, events, actions, chunks, trailers, k - 1);
        assert(events[4 + k - 1] == UnaryEvent::Chunk(chunks[k - 1]));
        assert(chunks.take(k).drop_last() =~= chunks.take(k - 1));
        assert(chunks.take(k).last() == chunks[k - 1]);
    }
}

/// A call in which every step works returns what status and body say, however the body was cut
/// into pieces.
pub proof fn law_answered_call_returns_reply(
    states: Seq<UnaryView>,
    events: Seq<UnaryEvent>,
    actions: Seq<UnaryAction>,
    chunks: Seq<Bytes>,
    trailers: Option<http::HeaderMap<http::HeaderValue>>,
)
    requires
        is_run(states, events, actions),
        events == answered_events(chunks, trailers),
        states[0].step == UnaryStep::SendRequest,
        states[0].body == Seq::<u8>::empty(),
    ensures
        actions.last() matches UnaryAction::Return(r) && is_reply(
            trailer_status(trailers),
            joined(chunks),
            r,
        ),
{
    let n = chunks.len() as int;
    lemma_body_so_far(states, events, actions, chunks, trailers, n);
    assert(chunks.take(n) =~= chunks);
    assert(events[4 + n] is End);
    assert(events[5 + n] == UnaryEvent::Trailers(trailers));
}

/// A message that the server frames and sends with status 0 reaches the caller unchanged.
pub proof fn law_reply_delivers_message(
    message: Seq<u8>,
    rest: Seq<u8>,
    text: Seq<char>,
    r: Result<Vec<u8>, EngineError>,
)
    requires
        message.len() < 4294967296,
        is_reply(Some((0nat, text)), frame_of(message) + rest, r),
    ensures
        r matches Ok(msg) && msg@ == message,
{
    crate::transport::grpc::law_decode_inverts_encode(message, rest);
}

/// A rejected credential is always reported as such, whatever the body holds.
pub proof fn law_unauthenticated_wins(
    text: Seq<char>,
    body: Seq<u8>,
    r: Result<Vec<u8>, EngineError>,
)
    requires
        is_reply(Some((16nat, text)), body, r),
    ensures
        r matches Err(EngineError::Unauthenticated { message }) && message@ == text,
{
}

} // verus!
