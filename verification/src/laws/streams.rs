//! Laws of the message stream: its subscription, its frames and its end.

use bytes::{Bytes, BytesMut};
use vstd::prelude::*;

use crate::buffers::{buffer_content, buffer_limit, bytes_content};
use crate::config::EngineConfig;
use crate::error::EngineError;
use crate::http_types::{parsed_uri, request_parts, status_line};
use crate::laws::framing::big_endian;
use crate::laws::text::{are_hex_digits, lemma_hex_digits};
use crate::messages::{MessageStreamRequest, StreamPayload};
use crate::text::hex_lower;
use crate::transport::grpc::encode_grpc_frame;
use crate::transport::request::build_call_request;
use crate::transport::stream::{
    concat_all, contents, delivered_frames, drain_frames, has_raw_frame, is_pump_run,
    law_cut_frames_are_whole, law_cutting_keeps_every_byte, law_pump_delivers_every_frame,
    raw_frames, raw_rest, received_bytes, request_id_at, send_frame_result, uuid_v4_hex, OpenAction,
    OpenEvent, OpenStep, PumpAction, PumpEvent, PumpStep, PumpView, StreamOpening, StreamPump,
};
use crate::transport::Transport;

verus! {

// ---- Request ids -----------------------------------------------------------

/// A request id is the clock reading in 32 lower-case hexadecimal digits.
pub proof fn law_request_id_is_the_time(nanos: u128, id: String)
    requires
        call_ensures(request_id_at, (nanos,), id),
    ensures
        are_hex_digits(id@, nanos as int, 32, 97),
{
    lemma_hex_digits(nanos as nat, 32);
}

/// A fresh request id has 32 characters, each a digit or a letter from `a` to `f`.
pub proof fn law_fresh_request_id(id: String)
    requires
        call_ensures(uuid_v4_hex, (), id),
    ensures
        id@.len() == 32,
        forall|i: int| #![trigger id@[i]]
            0 <= i < 32 ==> '0' <= id@[i] <= '9' || 'a' <= id@[i] <= 'f',
{
    let nanos = choose|nanos: u128| id@ == #[trigger] hex_lower(nanos as nat, 32);
    lemma_hex_digits(nanos as nat, 32);
}

// ---- Opening ---------------------------------------------------------------

/// The stream is opened over the connection with a request to its method at the configured
/// server, for the conversations and from the cursor that were asked for; without a connection it
/// is not.
pub proof fn law_stream_request(
    t: &Transport,
    ids: Vec<String>,
    cursor: Option<String>,
    r: Result<(StreamOpening, http::Request<()>), EngineError>,
    addr: String,
    authority: &str,
    path: &str,
    token: Option<&str>,
    fault: &str,
    built: Result<http::Request<()>, EngineError>,
)
    requires
        call_ensures(Transport::open_message_stream, (t, ids, cursor), r),
        call_ensures(EngineConfig::server_addr, (&t@.config,), addr),
        authority@ == addr@,
        path@ == "/shared.proto.services.v1.MessagingService/MessageStream"@,
        token is Some == t@.token is Some,
        t@.token matches Some(kept) ==> kept@ == token->0@,
        fault@ == "build stream request: "@,
        call_ensures(build_call_request, (authority, path, token, fault), built),
    ensures
        r is Ok <==> t@.connected && built is Ok,
        r matches Ok((opening, req)) ==> {
            &&& opening@.step is SendRequest
            &&& opening@.conversation_ids == ids@
            &&& opening@.since_cursor == cursor
            &&& built matches Ok(req2) && request_parts(req) == request_parts(req2)
            &&& parsed_uri("https://"@ + addr@ + path@) == Ok::<Seq<char>, Seq<char>>(
                request_parts(req).1,
            )
        },
        !t@.connected ==> (r matches Err(EngineError::Transport { message }) && message@
            == "H3 not connected"@),
        t@.connected && r is Err ==> (r matches Err(EngineError::Transport { message }) && (
        built matches Err(EngineError::Transport { message: why }) && message@ == why@)),
{
}

/// An opening starts with what it was asked for, or fails as building its request does.
pub proof fn law_opening_starts(
    authority: &str,
    path: &str,
    ids: Vec<String>,
    cursor: Option<String>,
    token: Option<&str>,
    r: Result<(StreamOpening, http::Request<()>), EngineError>,
    fault: &str,
    built: Result<http::Request<()>, EngineError>,
    step: OpenStep,
)
    requires
        call_ensures(StreamOpening::start, (authority, path, ids, cursor, token), r),
        fault@ == "build stream request: "@,
        call_ensures(build_call_request, (authority, path, token, fault), built),
        r matches Ok((opening, _)) ==> call_ensures(StreamOpening::step, (&opening,), step),
    ensures
        r is Ok == built is Ok,
        r matches Ok((opening, req)) ==> {
            &&& step is SendRequest
            &&& opening@.step is SendRequest
            &&& opening@.conversation_ids == ids@
            &&& opening@.since_cursor == cursor
            &&& built matches Ok(req2) && request_parts(req) == request_parts(req2)
        },
        r matches Err(e) ==> (e matches EngineError::Transport { message } && (built matches Err(
            EngineError::Transport { message: why },
        ) && message@ == why@)),
{
}

/// Whether a frame subscribes to these conversations from this cursor on, without presence.
pub open spec fn subscribes(
    frame: MessageStreamRequest,
    ids: Seq<String>,
    cursor: Option<String>,
) -> bool {
    &&& frame.request matches StreamPayload::Subscribe {
        conversation_ids,
        since_cursor,
        include_presence,
    } && conversation_ids@ == ids && since_cursor == cursor && !include_presence
    &&& frame.attempt_id is None
    &&& frame.request_id@.len() == 32
}

/// Once the request head is out, the response is awaited; HTTP status 200 is answered with the
/// subscription that was asked for, and any other status, like any failed step, ends the opening
/// with an error that says what failed. When the subscription is out, the stream is open.
pub proof fn law_opening_steps(o: &mut StreamOpening, event: OpenEvent, action: OpenAction)
    requires
        call_ensures(StreamOpening::on_event, (o, event), action),
    ensures
        event is Done && old(o)@.step is SendRequest ==> {
            &&& final(o)@.step is RecvResponse
            &&& final(o)@.conversation_ids == old(o)@.conversation_ids
            &&& final(o)@.since_cursor == old(o)@.since_cursor
            &&& action is RecvResponse
        },
        event is Done && old(o)@.step is SendSubscribe ==> final(o)@.step is Ended && action
            is Opened,
        event matches OpenEvent::Response(code) ==> {
            &&& code == 200 ==> final(o)@.step is SendSubscribe && (
            action matches OpenAction::SendSubscribe(frame) && subscribes(
                frame,
                old(o)@.conversation_ids,
                old(o)@.since_cursor,
            ))
            &&& code != 200 ==> final(o)@.step is Ended && (action matches OpenAction::Fail(
                EngineError::Transport { message },
            ) && message@ == "MessageStream HTTP "@ + status_line(code))
        },
        event matches OpenEvent::Failed(cause) ==> {
            &&& final(o)@.step is Ended
            &&& action matches OpenAction::Fail(EngineError::Transport { message }) && {
                &&& old(o)@.step is SendRequest ==> message@ == "open MessageStream: "@ + cause@
                &&& old(o)@.step is RecvResponse ==> message@ == "MessageStream recv_response: "@
                    + cause@
                &&& old(o)@.step is SendSubscribe ==> message@ == "SubscribeRequest send: "@ + cause@
            }
        },
{
    if let OpenAction::SendSubscribe(frame) = action {
        let nanos = choose|nanos: u128|
            frame.request_id@ == #[trigger] hex_lower(nanos as nat, 32);
        lemma_hex_digits(nanos as nat, 32);
    }
}

/// The subscription carries the request id that is made from the time at which the response came;
/// apart from that id the time changes nothing.
pub proof fn law_subscription_carries_the_time(
    o: &mut StreamOpening,
    event: OpenEvent,
    nanos: u128,
    action: OpenAction,
    id: String,
)
    requires
        call_ensures(StreamOpening::on_event_at, (o, event, nanos), action),
        call_ensures(request_id_at, (nanos,), id),
    ensures
        action matches OpenAction::SendSubscribe(frame) ==> frame.request_id@ == id@,
        event == OpenEvent::Response(200) ==> final(o)@.step is SendSubscribe && (
        action matches OpenAction::SendSubscribe(frame) && subscribes(
            frame,
            old(o)@.conversation_ids,
            old(o)@.since_cursor,
        )),
        event is Done && old(o)@.step is SendRequest ==> final(o)@.step is RecvResponse && action
            is RecvResponse && final(o)@.conversation_ids == old(o)@.conversation_ids
            && final(o)@.since_cursor == old(o)@.since_cursor,
        event is Done && old(o)@.step is SendSubscribe ==> final(o)@.step is Ended && action
            is Opened,
        event matches OpenEvent::Response(code) ==> (code != 200 ==> final(o)@.step is Ended && (
        action matches OpenAction::Fail(EngineError::Transport { message }) && message@
            == "MessageStream HTTP "@ + status_line(code))),
        event is Failed ==> final(o)@.step is Ended && action is Fail,
{
    lemma_hex_digits(nanos as nat, 32);
}

/// A stream that opens is subscribed to exactly what was asked of the transport.
pub proof fn law_opened_stream_has_its_subscription(
    t: &Transport,
    ids: Vec<String>,
    cursor: Option<String>,
    opening: StreamOpening,
    req: http::Request<()>,
    o1: &mut StreamOpening,
    a1: OpenAction,
    o2: &mut StreamOpening,
    a2: OpenAction,
)
    requires
        call_ensures(Transport::open_message_stream, (t, ids, cursor), Ok((opening, req))),
        *o1 == opening,
        call_ensures(StreamOpening::on_event, (o1, OpenEvent::Done), a1),
        *o2 == *final(o1),
        call_ensures(StreamOpening::on_event, (o2, OpenEvent::Response(200)), a2),
    ensures
        a1 is RecvResponse,
        a2 matches OpenAction::SendSubscribe(frame) && subscribes(frame, ids@, cursor),
{
    law_opening_steps(o2, OpenEvent::Response(200), a2);
}

// ---- Frames ----------------------------------------------------------------

/// Whether a byte sequence is exactly one frame: five bytes and as many as they announce.
pub open spec fn is_one_frame(frame: Seq<u8>) -> bool {
    frame.len() >= 5 && frame.len() == 5 + big_endian(frame.subrange(1, 5))
}

/// Whether a byte sequence is the beginning of a frame, but no whole one.
pub open spec fn is_unfinished(rest: Seq<u8>) -> bool {
    rest.len() < 5 || rest.len() < 5 + big_endian(rest.subrange(1, 5))
}

/// Whether data was cut into whole frames and an unfinished one, in order and without loss.
pub open spec fn is_cut(data: Seq<u8>, frames: Seq<Bytes>, rest: Seq<u8>) -> bool {
    &&& data == frames.map_values(|f: Bytes| bytes_content(f)).flatten() + rest
    &&& forall|i: int| #![trigger frames[i]]
        0 <= i < frames.len() ==> is_one_frame(bytes_content(frames[i]))
    &&& is_unfinished(rest)
}

proof fn lemma_flattened(parts: Seq<Seq<u8>>)
    ensures
        parts.flatten() == concat_all(parts),
    decreases parts.len(),
{
    if parts.len() > 0 {
        lemma_flattened(parts.skip(1));
        assert(parts.drop_first() =~= parts.skip(1));
    }
}

proof fn lemma_cut(data: Seq<u8>, frames: Seq<Bytes>, rest: Seq<u8>)
    requires
        contents(frames) == raw_frames(data),
        rest == raw_rest(data),
    ensures
        is_cut(data, frames, rest),
{
    law_cutting_keeps_every_byte(data);
    law_cut_frames_are_whole(data);
    lemma_flattened(raw_frames(data));
    assert(frames.map_values(|f: Bytes| bytes_content(f)) =~= contents(frames));
    assert forall|i: int| #![trigger frames[i]] 0 <= i < frames.len() implies is_one_frame(
        bytes_content(frames[i]),
    ) by {
        let f = bytes_content(frames[i]);
        assert(f == raw_frames(data)[i]);
        let part = f.subrange(1, 5);
        assert(part[0] == f[1] && part[1] == f[2] && part[2] == f[3] && part[3] == f[4]);
    }
    assert(!has_raw_frame(rest));
    if rest.len() >= 5 {
        let part = rest.subrange(1, 5);
        assert(part[0] == rest[1] && part[1] == rest[2] && part[2] == rest[3] && part[3]
            == rest[4]);
    }
}

/// Received data is cut into exactly its whole frames, in order; what is left is an unfinished
/// frame, and no byte is lost.
pub proof fn law_data_is_cut_into_frames(buf: &mut BytesMut, frames: Vec<Bytes>)
    requires
        call_ensures(drain_frames, (buf,), frames),
    ensures
        is_cut(buffer_content(*old(buf)), frames@, buffer_content(*final(buf))),
{
    lemma_cut(buffer_content(*old(buf)), frames@, buffer_content(*final(buf)));
}

/// Data that arrives is put behind what was held back, and all whole frames are handed on.
pub proof fn law_pump_cuts_what_arrives(p: &mut StreamPump, data: Bytes, action: PumpAction)
    requires
        call_ensures(StreamPump::on_event, (p, PumpEvent::Received(data)), action),
    ensures
        final(p)@.step is PollOutgoing,
        final(p)@.failure == old(p)@.failure,
        action matches PumpAction::Deliver(frames) && is_cut(
            old(p)@.pending + bytes_content(data),
            frames@,
            final(p)@.pending,
        ),
{
    if let PumpAction::Deliver(frames) = action {
        lemma_cut(old(p)@.pending + bytes_content(data), frames@, final(p)@.pending);
    }
}

/// A new pump looks at the queue first and has received nothing.
pub proof fn law_new_pump_is_empty(p: StreamPump, step: PumpStep)
    requires
        call_ensures(StreamPump::new, (), p),
        call_ensures(StreamPump::step, (&p,), step),
    ensures
        step is PollOutgoing,
        p@.step is PollOutgoing,
        p@.pending.len() == 0,
        p@.failure is None,
{
}

/// A pump can say which step it is at, and takes data in as long as what it holds stays within
/// the limit of a buffer.
pub proof fn law_pump_knows_its_step_and_room(
    p: &StreamPump,
    data: &Bytes,
    step: PumpStep,
    room: bool,
)
    requires
        call_ensures(StreamPump::step, (p,), step),
        call_ensures(StreamPump::has_room_for, (p, data), room),
    ensures
        step == p@.step,
        room <==> p@.pending.len() + bytes_content(*data).len() <= buffer_limit(),
{
}

/// The pump sends what the queue holds, waits for data when the queue is empty, and looks at the
/// queue again after each. What it holds back stays.
pub proof fn law_pump_alternates(p: &mut StreamPump, event: PumpEvent, action: PumpAction)
    requires
        call_ensures(StreamPump::on_event, (p, event), action),
        event is Outgoing || event is OutgoingEmpty || event is Sent || event is TimedOut,
    ensures
        final(p)@.pending == old(p)@.pending,
        final(p)@.failure == old(p)@.failure,
        event matches PumpEvent::Outgoing(frame) ==> final(p)@.step is Sending && (
        action matches PumpAction::Send(sent) && sent == frame),
        event is OutgoingEmpty ==> final(p)@.step is Receiving && action is Recv,
        event is Sent || event is TimedOut ==> final(p)@.step is PollOutgoing && action
            is PollOutgoing,
{
}

/// The pump closes the send side when the queue was closed or sending failed, and then stops; it
/// stops at once when the server closed its side or receiving failed. It gives a reason in every
/// case but the closed queue.
pub proof fn law_pump_stops_with_its_reason(
    p: &mut StreamPump,
    event: PumpEvent,
    action: PumpAction,
    p2: &mut StreamPump,
    action2: PumpAction,
)
    requires
        call_ensures(StreamPump::on_event, (p, event), action),
        *p2 == *final(p),
        call_ensures(StreamPump::on_event, (p2, PumpEvent::Finished), action2),
    ensures
        event is OutgoingClosed || event is SendFailed ==> action is Finish && final(p)@.step
            is Finishing && final(p)@.pending == old(p)@.pending && final(p2)@.step is Stopped
            && action2 is Stop,
        event is OutgoingClosed ==> (action2 matches PumpAction::Stop(why) && why is None),
        event matches PumpEvent::SendFailed(cause) ==> (action2 matches PumpAction::Stop(Some(why))
            && why@ == "MessageStream send_data failed: "@ + cause@),
        event is RemoteClosed ==> final(p)@.step is Stopped && (action matches PumpAction::Stop(
            Some(why),
        ) && why@ == "MessageStream: server closed send side"@),
        event matches PumpEvent::RecvFailed(cause) ==> final(p)@.step is Stopped && (
        action matches PumpAction::Stop(Some(why)) && why@ == "MessageStream recv_data error: "@
            + cause@),
{
}

/// Over a whole run, in however many pieces the data comes and whatever else happens, the frames
/// that are handed on are the frames of the data, in order: each is whole, and together with what
/// is held back they are the data.
pub proof fn law_pump_loses_nothing(
    states: Seq<PumpView>,
    events: Seq<PumpEvent>,
    actions: Seq<PumpAction>,
)
    requires
        is_pump_run(states, events, actions),
        states[0].pending.len() == 0,
    ensures
        received_bytes(events) == delivered_frames(actions).flatten() + states.last().pending,
        forall|i: int| #![trigger delivered_frames(actions)[i]]
            0 <= i < delivered_frames(actions).len() ==> is_one_frame(delivered_frames(actions)[i]),
        is_unfinished(states.last().pending),
{
    assert(states[0].pending =~= Seq::<u8>::empty());
    law_pump_delivers_every_frame(states, events, actions);
    let data = received_bytes(events);
    let frames = delivered_frames(actions);
    law_cutting_keeps_every_byte(data);
    law_cut_frames_are_whole(data);
    lemma_flattened(raw_frames(data));
    assert forall|i: int| #![trigger frames[i]] 0 <= i < frames.len() implies is_one_frame(
        frames[i],
    ) by {
        let f = frames[i];
        assert(f == raw_frames(data)[i]);
        let part = f.subrange(1, 5);
        assert(part[0] == f[1] && part[1] == f[2] && part[2] == f[3] && part[3] == f[4]);
    }
    let rest = states.last().pending;
    if rest.len() >= 5 {
        let part = rest.subrange(1, 5);
        assert(part[0] == rest[1] && part[1] == rest[2] && part[2] == rest[3] && part[3]
            == rest[4]);
    }
}

/// A frame is one that can be cut off whole.
pub proof fn law_encoded_frame_is_one_frame(msg: &[u8], frame: Bytes)
    requires
        call_ensures(encode_grpc_frame, (msg,), frame),
        msg@.len() < 0x1_0000_0000,
    ensures
        is_one_frame(bytes_content(frame)),
{
    let f = bytes_content(frame);
    crate::transport::grpc::law_decode_inverts_encode(msg@, Seq::empty());
    assert(f + Seq::<u8>::empty() =~= f);
    let part = f.subrange(1, 5);
    assert(part[0] == f[1] && part[1] == f[2] && part[2] == f[3] && part[3] == f[4]);
    crate::transport::grpc::law_decode_loses_nothing(f);
}

/// A frame that the pump takes is sent; one that it does not take is refused with the reason.
pub proof fn law_closed_stream_refuses_frames(accepted: bool, r: Result<(), EngineError>)
    requires
        call_ensures(send_frame_result, (accepted,), r),
    ensures
        r is Ok == accepted,
        !accepted ==> (r matches Err(EngineError::Transport { message }) && message@
            == "MessageStream send channel closed"@),
{
}

} // verus!
