//! The bidirectional message stream over a single HTTP/3 request.
//!
//! Opening the stream and pumping it are state machines: a driver performs the I/O that they
//! ask for and reports the outcomes. The pump alternates between draining the outgoing queue
//! and waiting a short time for incoming data, because the underlying stream cannot be split
//! into independent halves.

use bytes::{Bytes, BytesMut};
use vstd::prelude::*;
use vstd::string::*;

use crate::buffers::{as_slice, buffer_content, buffer_limit, buffer_slice, bytes_content};
use crate::clock::unix_nanos;
use crate::error::EngineError;
use crate::http_types::{request_parts, status_line, status_line_text};
use crate::messages::{MessageStreamRequest, StreamPayload};
use crate::text::{digit_char, hex_lower, hex_lower_text};
use crate::transport::grpc::{announced_len, frame_message, frame_of, opt_text, starts_with_frame};
use crate::transport::request::{build_call_request, call_parts, is_sendable, unsendable_text};

verus! {

/// How long the pump waits for incoming data before it looks at the send queue again.
pub const RECV_POLL_INTERVAL_MS: u64 = 50;

/// Depth of the outgoing frame queue.
pub const OUTGOING_CHANNEL_DEPTH: usize = 256;

// ---- Request ids -----------------------------------------------------------

/// The request id made from a clock reading in nanoseconds.
pub fn request_id_at(nanos: u128) -> (id: String)
    ensures
        id@ == hex_lower(nanos as nat, 32),
{
    hex_lower_text(nanos, 32)
}

/// A request id made from the current time.
pub fn uuid_v4_hex() -> (id: String)
    ensures
        exists|nanos: u128| id@ == #[trigger] hex_lower(nanos as nat, 32),
{
    let nanos = unix_nanos();
    let id = request_id_at(nanos);
    assert(id@ == hex_lower(nanos as nat, 32));
    id
}

/// How many numbers have at most `width` hexadecimal digits.
spec fn hex_capacity(width: nat) -> nat
    decreases width,
{
    if width == 0 {
        1
    } else {
        16 * hex_capacity((width - 1) as nat)
    }
}

proof fn lemma_hex_lower_injective(a: nat, b: nat, width: nat)
    requires
        a < hex_capacity(width),
        b < hex_capacity(width),
        hex_lower(a, width) == hex_lower(b, width),
    ensures
        a == b,
    decreases width,
{
    if width > 0 {
        let w = (width - 1) as nat;
        let ha = hex_lower(a / 16, w);
        let hb = hex_lower(b / 16, w);
        let x = ha.push(digit_char(a % 16));
        let y = hb.push(digit_char(b % 16));
        assert(x == y);
        assert(x.last() == y.last());
        assert(x.drop_last() =~= ha);
        assert(y.drop_last() =~= hb);
        assert(ha == hb);
        lemma_hex_lower_injective(a / 16, b / 16, w);
    }
}

/// Requests made at different times have different ids.
pub proof fn law_request_ids_differ(t1: u128, t2: u128)
    requires
        t1 != t2,
    ensures
        hex_lower(t1 as nat, 32) != hex_lower(t2 as nat, 32),
{
    if hex_lower(t1 as nat, 32) == hex_lower(t2 as nat, 32) {
        assert(hex_capacity(32) == 0x1_0000_0000_0000_0000_0000_0000_0000_0000) by {
            reveal_with_fuel(hex_capacity, 33);
        }
        lemma_hex_lower_injective(t1 as nat, t2 as nat, 32);
    }
}

// ---- Opening ---------------------------------------------------------------

/// What an opening stream is waiting for.
#[derive(Debug, Clone, Copy, PartialEq, Eq, Structural)]
pub enum OpenStep {
    /// The request head is being sent.
    SendRequest,
    /// The response head is awaited.
    RecvResponse,
    /// The subscription is being sent.
    SendSubscribe,
    /// The stream is open, or has failed to open.
    Ended,
}

/// What the driver reports while a stream opens.
pub enum OpenEvent {
    /// The send step succeeded.
    Done,
    /// The response head arrived with this HTTP status code.
    Response(u16),
    /// The step failed, with this description.
    Failed(String),
}

/// What the driver does next while a stream opens.
pub enum OpenAction {
    /// Wait for the response head.
    RecvResponse,
    /// Encode, frame and send this subscription.
    SendSubscribe(MessageStreamRequest),
    /// The stream is open: start pumping it.
    Opened,
    /// The stream could not be opened.
    Fail(EngineError),
}

/// A message stream that is being opened.
pub struct StreamOpening {
    step: OpenStep,
    conversation_ids: Vec<String>,
    since_cursor: Option<String>,
}

/// The state of an opening stream as the contracts see it.
pub struct OpeningView {
    pub step: OpenStep,
    /// The subscription to send, which is empty once it was handed out.
    pub conversation_ids: Seq<String>,
    pub since_cursor: Option<String>,
}

/// The error text of a failed step.
pub open spec fn open_failure_text(step: OpenStep, cause: Seq<char>) -> Seq<char> {
    match step {
        OpenStep::SendRequest => "open MessageStream: "@ + cause,
        OpenStep::RecvResponse => "MessageStream recv_response: "@ + cause,
        _ => "SubscribeRequest send: "@ + cause,
    }
}

/// Whether an event can be the outcome of what an opening stream is waiting for.
pub open spec fn open_event_fits(step: OpenStep, event: OpenEvent) -> bool {
    match event {
        OpenEvent::Done => step == OpenStep::SendRequest || step == OpenStep::SendSubscribe,
        OpenEvent::Response(code) => step == OpenStep::RecvResponse && 100 <= code <= 999,
        OpenEvent::Failed(_) => step != OpenStep::Ended,
    }
}

/// Whether a request subscribes to these conversations, without presence updates, under a
/// request id made from the clock.
pub open spec fn is_subscription(
    req: MessageStreamRequest,
    ids: Seq<String>,
    cursor: Option<String>,
) -> bool {
    &&& req.request matches StreamPayload::Subscribe {
        conversation_ids,
        since_cursor,
        include_presence,
    } && conversation_ids@ == ids && since_cursor == cursor && !include_presence
    &&& exists|nanos: u128| req.request_id@ == #[trigger] hex_lower(nanos as nat, 32)
    &&& req.attempt_id is None
}

/// How an opening stream moves on from one event.
pub open spec fn is_open_step(
    pre: OpeningView,
    event: OpenEvent,
    post: OpeningView,
    action: OpenAction,
) -> bool {
    match event {
        OpenEvent::Done => if pre.step == OpenStep::SendRequest {
            &&& post == (OpeningView { step: OpenStep::RecvResponse, ..pre })
            &&& action is RecvResponse
        } else {
            &&& post == (OpeningView { step: OpenStep::Ended, ..pre })
            &&& action is Opened
        },
        OpenEvent::Response(code) => if code == 200 {
            &&& post == (OpeningView {
                step: OpenStep::SendSubscribe,
                conversation_ids: Seq::empty(),
                since_cursor: None,
            })
            &&& action matches OpenAction::SendSubscribe(req) && is_subscription(
                req,
                pre.conversation_ids,
                pre.since_cursor,
            )
        } else {
            &&& post == (OpeningView { step: OpenStep::Ended, ..pre })
            &&& action matches OpenAction::Fail(EngineError::Transport { message }) && message@
                == "MessageStream HTTP "@ + status_line(code)
        },
        OpenEvent::Failed(cause) => {
            &&& post == (OpeningView { step: OpenStep::Ended, ..pre })
            &&& action matches OpenAction::Fail(EngineError::Transport { message }) && message@
                == open_failure_text(pre.step, cause@)
        },
    }
}

/// How an opening stream moves on from one event at a clock reading in nanoseconds, from which
/// the request id of its subscription is made.
pub open spec fn is_open_step_at(
    pre: OpeningView,
    event: OpenEvent,
    nanos: u128,
    post: OpeningView,
    action: OpenAction,
) -> bool {
    &&& is_open_step(pre, event, post, action)
    &&& action matches OpenAction::SendSubscribe(req) ==> req.request_id@ == hex_lower(
        nanos as nat,
        32,
    )
}

impl View for StreamOpening {
    type V = OpeningView;

    closed spec fn view(&self) -> OpeningView {
        OpeningView {
            step: self.step,
            conversation_ids: self.conversation_ids@,
            since_cursor: self.since_cursor,
        }
    }
}

impl StreamOpening {
    /// Starts opening a stream: the request to send first, and the machine that awaits its
    /// outcome.
    pub fn start(
        authority: &str,
        service_path: &str,
        conversation_ids: Vec<String>,
        since_cursor: Option<String>,
        token: Option<&str>,
    ) -> (r: Result<(StreamOpening, http::Request<()>), EngineError>)
        ensures
            match r {
                Ok((opening, req)) => {
                    &&& is_sendable(authority@, service_path@, opt_text(token))
                    &&& request_parts(req) == call_parts(
                        authority@,
                        service_path@,
                        opt_text(token),
                    )
                    &&& opening@ == (OpeningView {
                        step: OpenStep::SendRequest,
                        conversation_ids: conversation_ids@,
                        since_cursor,
                    })
                },
                Err(e) => {
                    &&& !is_sendable(authority@, service_path@, opt_text(token))
                    &&& e matches EngineError::Transport { message } && message@
                        == "build stream request: "@ + unsendable_text(authority@, service_path@)
                },
            },
    {
        match build_call_request(authority, service_path, token, "build stream request: ") {
            Ok(req) => Ok(
                (
                    StreamOpening { step: OpenStep::SendRequest, conversation_ids, since_cursor },
                    req,
                ),
            ),
            Err(e) => Err(e),
        }
    }

    /// What the stream is waiting for.
    pub fn step(&self) -> (step: OpenStep)
        ensures
            step == self@.step,
    {
        self.step
    }

    /// Moves the opening on: takes the outcome of the last action and says what to do next.
    pub fn on_event(&mut self, event: OpenEvent) -> (action: OpenAction)
        requires
            open_event_fits(old(self)@.step, event),
        ensures
            is_open_step(old(self)@, event, final(self)@, action),
    {
        self.on_event_at(event, unix_nanos())
    }

    /// Moves the opening on at the given clock reading in nanoseconds.
    pub fn on_event_at(&mut self, event: OpenEvent, nanos: u128) -> (action: OpenAction)
        requires
            open_event_fits(old(self)@.step, event),
        ensures
            is_open_step_at(old(self)@, event, nanos, final(self)@, action),
    {
        match event {
            OpenEvent::Done => match self.step {
                OpenStep::SendRequest => {
                    self.step = OpenStep::RecvResponse;
                    OpenAction::RecvResponse
                },
                _ => {
                    self.step = OpenStep::Ended;
                    OpenAction::Opened
                },
            },
            OpenEvent::Response(code) => {
                if code == 200 {
                    let mut ids: Vec<String> = Vec::new();
                    core::mem::swap(&mut ids, &mut self.conversation_ids);
                    let cursor = self.since_cursor.take();
                    self.step = OpenStep::SendSubscribe;
                    OpenAction::SendSubscribe(
                        MessageStreamRequest {
                            request: StreamPayload::Subscribe {
                                conversation_ids: ids,
                                since_cursor: cursor,
                                include_presence: false,
                            },
                            request_id: request_id_at(nanos),
                            attempt_id: None,
                        },
                    )
                } else {
                    let text = String::from_str("MessageStream HTTP ").concat(
                        status_line_text(code).as_str(),
                    );
                    self.step = OpenStep::Ended;
                    OpenAction::Fail(EngineError::transport(text.as_str()))
                }
            },
            OpenEvent::Failed(cause) => {
                let text = match self.step {
                    OpenStep::SendRequest => String::from_str("open MessageStream: ").concat(
                        cause.as_str(),
                    ),
                    OpenStep::RecvResponse => String::from_str(
                        "MessageStream recv_response: ",
                    ).concat(cause.as_str()),
                    _ => String::from_str("SubscribeRequest send: ").concat(cause.as_str()),
                };
                self.step = OpenStep::Ended;
                OpenAction::Fail(EngineError::transport(text.as_str()))
            },
        }
    }
}

/// A stream that opens subscribes to exactly the conversations that were asked for, from the
/// cursor that was given, and is reported open only after the subscription was sent.
pub proof fn law_open_stream_is_subscribed(
    s0: OpeningView,
    s1: OpeningView,
    s2: OpeningView,
    s3: OpeningView,
    sent: OpenEvent,
    response: OpenEvent,
    subscribed: OpenEvent,
    a1: OpenAction,
    a2: OpenAction,
    a3: OpenAction,
)
    requires
        s0.step == OpenStep::SendRequest,
        open_event_fits(s0.step, sent),
        is_open_step(s0, sent, s1, a1),
        open_event_fits(s1.step, response),
        is_open_step(s1, response, s2, a2),
        open_event_fits(s2.step, subscribed),
        is_open_step(s2, subscribed, s3, a3),
        a3 is Opened,
    ensures
        a1 is RecvResponse,
        a2 matches OpenAction::SendSubscribe(req) && is_subscription(
            req,
            s0.conversation_ids,
            s0.since_cursor,
        ),
        s3.step == OpenStep::Ended,
{
}

// ---- Cutting incoming data into frames -------------------------------------

/// Whether `data` starts with a whole frame, header and body; the compression flag may be set.
pub open spec fn has_raw_frame(data: Seq<u8>) -> bool {
    data.len() >= 5 && data.len() - 5 >= announced_len(data)
}

/// The whole frames at the start of `data`, in order.
pub open spec fn raw_frames(data: Seq<u8>) -> Seq<Seq<u8>>
    decreases data.len(),
{
    if has_raw_frame(data) {
        seq![data.take(5 + announced_len(data))] + raw_frames(data.skip(5 + announced_len(data)))
    } else {
        Seq::empty()
    }
}

/// What follows the whole frames at the start of `data`.
pub open spec fn raw_rest(data: Seq<u8>) -> Seq<u8>
    decreases data.len(),
{
    if has_raw_frame(data) {
        raw_rest(data.skip(5 + announced_len(data)))
    } else {
        data
    }
}

/// The contents of frames.
pub open spec fn contents(frames: Seq<Bytes>) -> Seq<Seq<u8>> {
    frames.map_values(|f: Bytes| bytes_content(f))
}

/// Cuts all whole frames off the front of a receive buffer.
pub fn drain_frames(buf: &mut BytesMut) -> (frames: Vec<Bytes>)
    ensures
        contents(frames@) == raw_frames(buffer_content(*old(buf))),
        buffer_content(*final(buf)) == raw_rest(buffer_content(*old(buf))),
{
    let ghost start = buffer_content(*buf);
    let mut frames: Vec<Bytes> = Vec::new();
    assert(contents(frames@) + raw_frames(start) =~= raw_frames(start));
    loop
        invariant
            raw_frames(start) == contents(frames@) + raw_frames(buffer_content(*buf)),
            raw_rest(start) == raw_rest(buffer_content(*buf)),
        ensures
            !has_raw_frame(buffer_content(*buf)),
        decreases buffer_content(*buf).len(),
    {
        let ghost data = buffer_content(*buf);
        let len = buf.len();
        if len < 5 {
            break ;
        }
        let header = buffer_slice(buf);
        let msg_len: u32 = header[1] as u32 * 16777216 + header[2] as u32 * 65536 + header[3] as u32
            * 256 + header[4] as u32;
        if ((len - 5) as u64) < msg_len as u64 {
            break ;
        }
        let frame = buf.split_to(5 + msg_len as usize).freeze();
        let ghost before = frames@;
        frames.push(frame);
        proof {
            assert(bytes_content(frame) == data.take(5 + announced_len(data)));
            assert(contents(frames@) =~= contents(before) + seq![bytes_content(frame)]);
            assert(contents(before) + raw_frames(data) =~= contents(frames@) + raw_frames(
                data.skip(5 + announced_len(data)),
            ));
        }
    }
    assert(contents(frames@) + Seq::<Seq<u8>>::empty() =~= contents(frames@));
    frames
}

/// Byte sequences put together.
pub open spec fn concat_all(parts: Seq<Seq<u8>>) -> Seq<u8>
    decreases parts.len(),
{
    if parts.len() == 0 {
        Seq::empty()
    } else {
        parts[0] + concat_all(parts.skip(1))
    }
}

/// Cutting loses and invents nothing: the frames and the rest are the data.
pub proof fn law_cutting_keeps_every_byte(data: Seq<u8>)
    ensures
        data == concat_all(raw_frames(data)) + raw_rest(data),
    decreases data.len(),
{
    if has_raw_frame(data) {
        let n = 5 + announced_len(data);
        law_cutting_keeps_every_byte(data.skip(n));
        let frames = raw_frames(data);
        assert(frames[0] == data.take(n));
        assert(frames.skip(1) =~= raw_frames(data.skip(n)));
        assert(data =~= data.take(n) + data.skip(n));
        assert(concat_all(frames) + raw_rest(data) =~= data.take(n) + (concat_all(
            raw_frames(data.skip(n)),
        ) + raw_rest(data.skip(n))));
    } else {
        assert(concat_all(raw_frames(data)) + data =~= data);
    }
}

/// Every frame that is cut off is whole and exact, and no whole frame is left behind.
pub proof fn law_cut_frames_are_whole(data: Seq<u8>)
    ensures
        !has_raw_frame(raw_rest(data)),
        forall|i: int| #![trigger raw_frames(data)[i]]
            0 <= i < raw_frames(data).len() ==> raw_frames(data)[i].len() >= 5
                && raw_frames(data)[i].len() == 5 + announced_len(raw_frames(data)[i]),
    decreases data.len(),
{
    if has_raw_frame(data) {
        let n = 5 + announced_len(data);
        let tail = data.skip(n);
        law_cut_frames_are_whole(tail);
        assert forall|i: int| #![trigger raw_frames(data)[i]]
            0 <= i < raw_frames(data).len() implies raw_frames(data)[i].len() >= 5
            && raw_frames(data)[i].len() == 5 + announced_len(raw_frames(data)[i]) by {
            if i > 0 {
                assert(raw_frames(data)[i] == raw_frames(tail)[i - 1]);
            }
        }
    }
}

/// How the data is cut into pieces on the way does not matter: taking in `a` and then `b`
/// yields the frames, and leaves the rest, that taking in both at once does.
pub proof fn law_cutting_ignores_chunking(a: Seq<u8>, b: Seq<u8>)
    ensures
        raw_frames(a + b) == raw_frames(a) + raw_frames(raw_rest(a) + b),
        raw_rest(a + b) == raw_rest(raw_rest(a) + b),
    decreases a.len(),
{
    if has_raw_frame(a) {
        let n = 5 + announced_len(a);
        let ab = a + b;
        assert(ab[1] == a[1] && ab[2] == a[2] && ab[3] == a[3] && ab[4] == a[4]);
        assert(ab.take(n) =~= a.take(n));
        assert(ab.skip(n) =~= a.skip(n) + b);
        law_cutting_ignores_chunking(a.skip(n), b);
        assert(raw_frames(ab) =~= raw_frames(a) + raw_frames(raw_rest(a) + b));
    } else {
        assert(raw_frames(a) + raw_frames(a + b) =~= raw_frames(a + b));
    }
}

/// A framed message followed by anything comes out as one frame, and decoding that frame gives
/// the message back.
pub proof fn law_streamed_message_arrives(msg: Seq<u8>, rest: Seq<u8>)
    requires
        msg.len() < 4294967296,
    ensures
        raw_frames(frame_of(msg) + rest) == seq![frame_of(msg)] + raw_frames(rest),
        raw_rest(frame_of(msg) + rest) == raw_rest(rest),
        starts_with_frame(frame_of(msg)),
        frame_message(frame_of(msg)) == msg,
{
    crate::transport::grpc::law_decode_inverts_encode(msg, rest);
    crate::transport::grpc::law_decode_inverts_encode(msg, Seq::empty());
    let data = frame_of(msg) + rest;
    assert(frame_of(msg) + Seq::<u8>::empty() =~= frame_of(msg));
    assert(data[1] == frame_of(msg)[1] && data[2] == frame_of(msg)[2] && data[3] == frame_of(
        msg,
    )[3] && data[4] == frame_of(msg)[4]);
    let n = 5 + announced_len(data);
    assert(frame_message(frame_of(msg)).len() == msg.len());
    assert(data.take(n) =~= frame_of(msg));
    assert(data.skip(n) =~= rest);
}

// ---- Pumping ---------------------------------------------------------------

/// What the pump is waiting for.
#[derive(Debug, Clone, Copy, PartialEq, Eq, Structural)]
pub enum PumpStep {
    /// The outgoing queue is being looked at.
    PollOutgoing,
    /// A frame is being sent.
    Sending,
    /// Incoming data is awaited.
    Receiving,
    /// The send side is being closed.
    Finishing,
    /// The pump has stopped.
    Stopped,
}

/// What the driver reports to the pump.
pub enum PumpEvent {
    /// The queue held this frame.
    Outgoing(Bytes),
    /// The queue is empty.
    OutgoingEmpty,
    /// The queue was closed.
    OutgoingClosed,
    /// The frame was sent.
    Sent,
    /// The frame could not be sent, for this reason.
    SendFailed(String),
    /// Data arrived.
    Received(Bytes),
    /// The server closed its side.
    RemoteClosed,
    /// Receiving failed, for this reason.
    RecvFailed(String),
    /// Nothing arrived in time.
    TimedOut,
    /// The send side was closed, or closing it failed.
    Finished,
}

/// What the driver of the pump does next.
pub enum PumpAction {
    /// Look at the outgoing queue without waiting.
    PollOutgoing,
    /// Send this frame.
    Send(Bytes),
    /// Wait for incoming data, for `RECV_POLL_INTERVAL_MS` at most.
    Recv,
    /// Hand these frames on, in order, then look at the outgoing queue.
    Deliver(Vec<Bytes>),
    /// Close the send side.
    Finish,
    /// Stop pumping. Unless the stream ends because our side closed it, this says why.
    Stop(Option<String>),
}

/// The pump of an open message stream.
pub struct StreamPump {
    step: PumpStep,
    recv_buf: BytesMut,
    failure: Option<String>,
}

/// The state of a pump as the contracts see it.
pub struct PumpView {
    pub step: PumpStep,
    /// Received bytes that make no whole frame yet.
    pub pending: Seq<u8>,
    /// Why the send side is being closed, unless our side closed the stream.
    pub failure: Option<String>,
}

/// Whether an event can be the outcome of what a pump is waiting for.
pub open spec fn pump_event_fits(pump: PumpView, event: PumpEvent) -> bool {
    match event {
        PumpEvent::Outgoing(_) | PumpEvent::OutgoingEmpty | PumpEvent::OutgoingClosed => pump.step
            == PumpStep::PollOutgoing,
        PumpEvent::Sent | PumpEvent::SendFailed(_) => pump.step == PumpStep::Sending,
        PumpEvent::Received(data) => pump.step == PumpStep::Receiving && pump.pending.len()
            + bytes_content(data).len() <= buffer_limit(),
        PumpEvent::RemoteClosed | PumpEvent::RecvFailed(_) | PumpEvent::TimedOut => pump.step
            == PumpStep::Receiving,
        PumpEvent::Finished => pump.step == PumpStep::Finishing,
    }
}

/// How a pump moves on from one event.
pub open spec fn is_pump_step(
    pre: PumpView,
    event: PumpEvent,
    post: PumpView,
    action: PumpAction,
) -> bool {
    match event {
        PumpEvent::Outgoing(frame) => {
            &&& post == (PumpView { step: PumpStep::Sending, ..pre })
            &&& action == PumpAction::Send(frame)
        },
        PumpEvent::OutgoingEmpty => {
            &&& post == (PumpView { step: PumpStep::Receiving, ..pre })
            &&& action is Recv
        },
        PumpEvent::OutgoingClosed => {
            &&& post == (PumpView { step: PumpStep::Finishing, failure: None, ..pre })
            &&& action is Finish
        },
        PumpEvent::SendFailed(cause) => {
            &&& post.step == PumpStep::Finishing
            &&& post.pending == pre.pending
            &&& post.failure matches Some(text) && text@ == "MessageStream send_data failed: "@
                + cause@
            &&& action is Finish
        },
        PumpEvent::Sent | PumpEvent::TimedOut => {
            &&& post == (PumpView { step: PumpStep::PollOutgoing, ..pre })
            &&& action is PollOutgoing
        },
        PumpEvent::Received(data) => {
            &&& post.step == PumpStep::PollOutgoing
            &&& post.pending == raw_rest(pre.pending + bytes_content(data))
            &&& post.failure == pre.failure
            &&& action matches PumpAction::Deliver(frames) && contents(frames@) == raw_frames(
                pre.pending + bytes_content(data),
            )
        },
        PumpEvent::RemoteClosed => {
            &&& post == (PumpView { step: PumpStep::Stopped, ..pre })
            &&& action matches PumpAction::Stop(Some(text)) && text@
                == "MessageStream: server closed send side"@
        },
        PumpEvent::RecvFailed(cause) => {
            &&& post == (PumpView { step: PumpStep::Stopped, ..pre })
            &&& action matches PumpAction::Stop(Some(text)) && text@
                == "MessageStream recv_data error: "@ + cause@
        },
        PumpEvent::Finished => {
            &&& post == (PumpView { step: PumpStep::Stopped, failure: None, ..pre })
            &&& action == PumpAction::Stop(pre.failure)
        },
    }
}

impl View for StreamPump {
    type V = PumpView;

    closed spec fn view(&self) -> PumpView {
        PumpView {
            step: self.step,
            pending: buffer_content(self.recv_buf),
            failure: self.failure,
        }
    }
}

impl StreamPump {
    /// Whether the pump holds back only an unfinished frame.
    pub open spec fn well_formed(&self) -> bool {
        !has_raw_frame(self@.pending)
    }

    /// A pump that is about to look at the outgoing queue and has received nothing.
    pub fn new() -> (pump: StreamPump)
        ensures
            pump.well_formed(),
            pump@ == (PumpView {
                step: PumpStep::PollOutgoing,
                pending: Seq::empty(),
                failure: None,
            }),
    {
        StreamPump { step: PumpStep::PollOutgoing, recv_buf: BytesMut::new(), failure: None }
    }

    /// What the pump is waiting for.
    pub fn step(&self) -> (step: PumpStep)
        ensures
            step == self@.step,
    {
        self.step
    }

    /// Whether incoming data can still be taken in.
    pub fn has_room_for(&self, data: &Bytes) -> (b: bool)
        ensures
            b == (self@.pending.len() + bytes_content(*data).len() <= buffer_limit()),
    {
        let limit: usize = isize::MAX as usize / 4;
        let have = self.recv_buf.len();
        have <= limit && data.len() <= limit - have
    }

    /// Moves the pump on: takes the outcome of the last action and says what to do next.
    pub fn on_event(&mut self, event: PumpEvent) -> (action: PumpAction)
        requires
            old(self).well_formed(),
            pump_event_fits(old(self)@, event),
        ensures
            final(self).well_formed(),
            is_pump_step(old(self)@, event, final(self)@, action),
    {
        match event {
            PumpEvent::Outgoing(frame) => {
                self.step = PumpStep::Sending;
                PumpAction::Send(frame)
            },
            PumpEvent::OutgoingEmpty => {
                self.step = PumpStep::Receiving;
                PumpAction::Recv
            },
            PumpEvent::OutgoingClosed => {
                self.step = PumpStep::Finishing;
                self.failure = None;
                PumpAction::Finish
            },
            PumpEvent::SendFailed(cause) => {
                self.step = PumpStep::Finishing;
                self.failure = Some(
                    String::from_str("MessageStream send_data failed: ").concat(cause.as_str()),
                );
                PumpAction::Finish
            },
            PumpEvent::Sent | PumpEvent::TimedOut => {
                self.step = PumpStep::PollOutgoing;
                PumpAction::PollOutgoing
            },
            PumpEvent::Received(data) => {
                self.step = PumpStep::PollOutgoing;
                self.recv_buf.extend_from_slice(as_slice(&data));
                let frames = drain_frames(&mut self.recv_buf);
                proof {
                    law_cut_frames_are_whole(old(self)@.pending + bytes_content(data));
                }
                PumpAction::Deliver(frames)
            },
            PumpEvent::RemoteClosed => {
                self.step = PumpStep::Stopped;
                PumpAction::Stop(Some(String::from_str("MessageStream: server closed send side")))
            },
            PumpEvent::RecvFailed(cause) => {
                self.step = PumpStep::Stopped;
                PumpAction::Stop(
                    Some(
                        String::from_str("MessageStream recv_data error: ").concat(cause.as_str()),
                    ),
                )
            },
            PumpEvent::Finished => {
                self.step = PumpStep::Stopped;
                PumpAction::Stop(self.failure.take())
            },
        }
    }
}

/// Takes whether the pump accepted a frame for sending; it does not once the stream is closed.
pub fn send_frame_result(accepted: bool) -> (r: Result<(), EngineError>)
    ensures
        if accepted {
            r is Ok
        } else {
            r matches Err(EngineError::Transport { message }) && message@
                == "MessageStream send channel closed"@
        },
{
    if accepted {
        Ok(())
    } else {
        Err(EngineError::transport("MessageStream send channel closed"))
    }
}

// ---- Whole runs of the pump ------------------------------------------------

/// Whether a pump went through these states on these events, answering each with an action.
pub open spec fn is_pump_run(
    states: Seq<PumpView>,
    events: Seq<PumpEvent>,
    actions: Seq<PumpAction>,
) -> bool {
    &&& states.len() == events.len() + 1
    &&& actions.len() == events.len()
    &&& forall|i: int| #![trigger events[i]]
        0 <= i < events.len() ==> pump_event_fits(states[i], events[i]) && is_pump_step(
            states[i],
            events[i],
            states[i + 1],
            actions[i],
        )
}

/// The bytes that were received, in order.
pub open spec fn received_bytes(events: Seq<PumpEvent>) -> Seq<u8>
    decreases events.len(),
{
    if events.len() == 0 {
        Seq::empty()
    } else {
        let before = received_bytes(events.drop_last());
        match events.last() {
            PumpEvent::Received(data) => before + bytes_content(data),
            _ => before,
        }
    }
}

/// The frames that were handed on, in order.
pub open spec fn delivered_frames(actions: Seq<PumpAction>) -> Seq<Seq<u8>>
    decreases actions.len(),
{
    if actions.len() == 0 {
        Seq::empty()
    } else {
        let before = delivered_frames(actions.drop_last());
        match actions.last() {
            PumpAction::Deliver(frames) => before + contents(frames@),
            _ => before,
        }
    }
}

/// The frames that were taken from the outgoing queue, in order.
pub open spec fn queued_frames(events: Seq<PumpEvent>) -> Seq<Bytes>
    decreases events.len(),
{
    if events.len() == 0 {
        Seq::empty()
    } else {
        let before = queued_frames(events.drop_last());
        match events.last() {
            PumpEvent::Outgoing(frame) => before.push(frame),
            _ => before,
        }
    }
}

/// The frames that were sent, in order.
pub open spec fn sent_frames(actions: Seq<PumpAction>) -> Seq<Bytes>
    decreases actions.len(),
{
    if actions.len() == 0 {
        Seq::empty()
    } else {
        let before = sent_frames(actions.drop_last());
        match actions.last() {
            PumpAction::Send(frame) => before.push(frame),
            _ => before,
        }
    }
}

/// However the network cuts the incoming data into pieces, and whatever happens in between,
/// the pump hands on exactly the frames that the data consists of, in order, and holds back
/// what follows the last whole frame.
pub proof fn law_pump_delivers_every_frame(
    states: Seq<PumpView>,
    events: Seq<PumpEvent>,
    actions: Seq<PumpAction>,
)
    requires
        is_pump_run(states, events, actions),
        states[0].pending == Seq::<u8>::empty(),
    ensures
        delivered_frames(actions) == raw_frames(received_bytes(events)),
        states.last().pending == raw_rest(received_bytes(events)),
    decreases events.len(),
{
    if events.len() > 0 {
        let n = events.len() - 1;
        let s = states.drop_last();
        let e = events.drop_last();
        let a = actions.drop_last();
        assert forall|i: int| #![trigger e[i]] 0 <= i < e.len() implies pump_event_fits(s[i], e[i])
            && is_pump_step(s[i], e[i], s[i + 1], a[i]) by {
            assert(e[i] == events[i]);
        }
        law_pump_delivers_every_frame(s, e, a);
        assert(s.last() == states[n]);
        let ev = events[n];
        assert(is_pump_step(states[n], ev, states[n + 1], actions[n]));
        match ev {
            PumpEvent::Received(data) => {
                law_cutting_ignores_chunking(received_bytes(e), bytes_content(data));
            },
            _ => {},
        }
    }
}

/// The pump waits for incoming data only after it found the outgoing queue empty.
pub proof fn law_pump_drains_queue_first(
    pre: PumpView,
    event: PumpEvent,
    post: PumpView,
    action: PumpAction,
)
    requires
        is_pump_step(pre, event, post, action),
        action is Recv,
    ensures
        event is OutgoingEmpty,
{
}

/// A stream never ends in silence unless our side closed it: a pump that stops without a reason
/// has found the outgoing queue closed just before it closed the send side.
pub proof fn law_unexpected_end_has_a_reason(
    states: Seq<PumpView>,
    events: Seq<PumpEvent>,
    actions: Seq<PumpAction>,
)
    requires
        is_pump_run(states, events, actions),
        states[0].step == PumpStep::PollOutgoing,
        events.len() > 0,
        actions.last() == PumpAction::Stop(None),
    ensures
        events.len() >= 2,
        events[events.len() - 2] is OutgoingClosed,
{
    let n = events.len() - 1;
    let last = events[n];
    assert(is_pump_step(states[n], last, states[n + 1], actions[n]));
    assert(pump_event_fits(states[n], last));
    if n > 0 {
        let before = events[n - 1];
        assert(is_pump_step(states[n - 1], before, states[n], actions[n - 1]));
    }
}

/// The pump sends exactly the frames that it takes from the queue, in order.
pub proof fn law_pump_sends_what_is_queued(
    states: Seq<PumpView>,
    events: Seq<PumpEvent>,
    actions: Seq<PumpAction>,
)
    requires
        is_pump_run(states, events, actions),
    ensures
        sent_frames(actions) == queued_frames(events),
    decreases events.len(),
{
    if events.len() > 0 {
        let n = events.len() - 1;
        let s = states.drop_last();
        let e = events.drop_last();
        let a = actions.drop_last();
        assert forall|i: int| #![trigger e[i]] 0 <= i < e.len() implies pump_event_fits(s[i], e[i])
            && is_pump_step(s[i], e[i], s[i + 1], a[i]) by {
            assert(e[i] == events[i]);
        }
        law_pump_sends_what_is_queued(s, e, a);
        let ev = events[n];
        assert(is_pump_step(states[n], ev, states[n + 1], actions[n]));
    }
}

} // verus!
