//! Laws of the engine over whole runs: the subscription, the connection and the waits.

use bytes::Bytes;
use vstd::arithmetic::power2::{lemma2_to64, lemma_pow2_unfold, pow2};
use vstd::prelude::*;

use crate::buffers::bytes_content;
use crate::engine::{
    is_handled, is_link_step, is_stream_end, link_event_fits, start_failure, Command,
    ConstructEngine, EngineView, LinkEvent, LoopPhase, StartStep,
};
use crate::error::EngineError;
use crate::events::{PlatformAction, UiEvent};
use crate::text::decimal_text;
use crate::transport::connection::ConnectStep;
use crate::transport::{Transport, TransportView};

verus! {

// ---- Single steps ----------------------------------------------------------

/// A lost connection is reported, its stream is dropped and a new attempt is made at once, with
/// the shortest wait to follow if it fails. The subscription is kept.
pub proof fn law_lost_connection_is_retried(
    e: &mut ConstructEngine,
    t: &mut Transport,
    cmds: Vec<Command>,
)
    requires
        call_ensures(ConstructEngine::on_link_event, (e, t, LinkEvent::Lost), cmds),
    ensures
        final(e)@.phase == (LoopPhase::Connecting { delay: 1, reopen: true }),
        !final(e)@.stream_open,
        final(e)@.stream_params == old(e)@.stream_params,
        final(e)@.core_ready == old(e)@.core_ready,
        final(t)@ == old(t)@,
        cmds@.len() == 3,
        cmds@[0] matches Command::Emit(PlatformAction::ConnectionStateChanged { connected })
            && !connected,
        cmds@[1] is DropStream,
        cmds@[2] is Connect,
{
}

/// A restored connection is reported. When it had been lost before, the last subscription, if
/// there is one, is opened again; a first connection opens nothing.
pub proof fn law_connection_is_reported(
    e: &mut ConstructEngine,
    t: &mut Transport,
    cmds: Vec<Command>,
    delay: u64,
    again: bool,
)
    requires
        call_ensures(ConstructEngine::on_link_event, (e, t, LinkEvent::Connected), cmds),
        e@.phase == (LoopPhase::Connecting { delay, reopen: again }),
    ensures
        final(e)@.phase == LoopPhase::Serving,
        final(e)@.stream_open == old(e)@.stream_open,
        final(e)@.stream_params == old(e)@.stream_params,
        final(e)@.core_ready == old(e)@.core_ready,
        final(t)@.connected,
        final(t)@.config == old(t)@.config,
        final(t)@.token == old(t)@.token,
        cmds@.len() == if again && old(e)@.stream_params is Some {
            2nat
        } else {
            1
        },
        cmds@[0] matches Command::Emit(PlatformAction::ConnectionStateChanged { connected })
            && connected,
        cmds@.len() == 2 ==> (cmds@[1] matches Command::OpenStream {
            conversation_ids,
            since_cursor,
        } && old(e)@.stream_params == Some((conversation_ids@, since_cursor))),
{
}

/// A failed attempt is reported with the wait in seconds and the reason, and the wait follows. The
/// wait after the next failed attempt is twice as long, up to a minute.
pub proof fn law_failed_attempt_is_reported(
    e: &mut ConstructEngine,
    t: &mut Transport,
    step: ConnectStep,
    cause: String,
    cmds: Vec<Command>,
    delay: u64,
    again: bool,
    t2: &mut Transport,
    error: EngineError,
    reason: String,
    seconds: String,
)
    requires
        call_ensures(
            ConstructEngine::on_link_event,
            (e, t, LinkEvent::ConnectFailed(step, cause)),
            cmds,
        ),
        e@.phase == (LoopPhase::Connecting { delay, reopen: again }),
        call_ensures(Transport::connect_h3, (t2, Err((step, cause))), Err(error)),
        call_ensures(EngineError::display_text, (&error,), reason),
        call_ensures(decimal_text, (delay,), seconds),
    ensures
        final(t)@ == old(t)@,
        final(e)@.stream_open == old(e)@.stream_open,
        final(e)@.stream_params == old(e)@.stream_params,
        final(e)@.core_ready == old(e)@.core_ready,
        final(e)@.phase matches LoopPhase::Waiting { delay: next, reopen } && reopen == again && (
        delay <= 30 ==> next == 2 * delay) && (delay >= 30 ==> next == 60),
        cmds@.len() == 2,
        cmds@[0] matches Command::Emit(PlatformAction::NetworkError { message }) && message@
            =~= "Reconnecting in "@ + seconds@ + "s… ("@ + reason@ + ")"@,
        cmds@[1] matches Command::Sleep(wait) && wait == delay,
{
}

/// After a wait comes the next attempt, and the wait to follow stays as it was.
pub proof fn law_wait_is_followed_by_an_attempt(
    e: &mut ConstructEngine,
    t: &mut Transport,
    cmds: Vec<Command>,
    delay: u64,
    again: bool,
)
    requires
        call_ensures(ConstructEngine::on_link_event, (e, t, LinkEvent::Slept), cmds),
        e@.phase == (LoopPhase::Waiting { delay, reopen: again }),
    ensures
        final(t)@ == old(t)@,
        final(e)@.phase == (LoopPhase::Connecting { delay, reopen: again }),
        final(e)@.stream_open == old(e)@.stream_open,
        final(e)@.stream_params == old(e)@.stream_params,
        final(e)@.core_ready == old(e)@.core_ready,
        cmds@.len() == 1,
        cmds@[0] is Connect,
{
}

/// When no more events will come, the loop ends and nothing else happens.
pub proof fn law_closing_stops_the_loop(
    e: &mut ConstructEngine,
    t: &mut Transport,
    cmds: Vec<Command>,
)
    requires
        call_ensures(ConstructEngine::on_link_event, (e, t, LinkEvent::Closed), cmds),
    ensures
        final(t)@ == old(t)@,
        final(e)@.phase is Stopped,
        final(e)@.stream_open == old(e)@.stream_open,
        final(e)@.stream_params == old(e)@.stream_params,
        final(e)@.core_ready == old(e)@.core_ready,
        cmds@.len() == 1,
        cmds@[0] is Stop,
{
}

/// A new engine is idle: not started, without a stream or a subscription, and with a core exactly
/// if one was built. It starts once; a second start is refused and changes nothing.
pub proof fn law_engine_starts_once(
    built: Result<bool, EngineError>,
    made: Result<ConstructEngine, EngineError>,
    e: &mut ConstructEngine,
    first: Result<(), EngineError>,
    e2: &mut ConstructEngine,
    second: Result<(), EngineError>,
)
    requires
        call_ensures(ConstructEngine::new, (built,), made),
        made matches Ok(engine) && *e == engine,
        call_ensures(ConstructEngine::start, (e,), first),
        call_ensures(ConstructEngine::start, (e2,), second),
    ensures
        built == Ok::<bool, EngineError>(old(e)@.core_ready),
        old(e)@.phase is Created,
        !old(e)@.stream_open,
        old(e)@.stream_params is None,
        first is Ok,
        final(e)@.phase is Starting,
        !final(e)@.stream_open,
        final(e)@.stream_params is None,
        final(e)@.core_ready == old(e)@.core_ready,
        !(old(e2)@.phase is Created) ==> final(e2)@ == old(e2)@ && (second matches Err(error)
            && error is AlreadyRunning),
{
}

/// An engine whose core could not be built is not made; the reason is handed on.
pub proof fn law_failed_core_makes_no_engine(
    built: Result<bool, EngineError>,
    made: Result<ConstructEngine, EngineError>,
)
    requires
        call_ensures(ConstructEngine::new, (built,), made),
    ensures
        made is Ok == built is Ok,
        built matches Err(why) ==> made == Err::<ConstructEngine, EngineError>(why),
{
}

/// Once the transport is set up the engine connects; when that failed, it reports why and stops.
pub proof fn law_transport_setup_decides(
    e: &mut ConstructEngine,
    outcome: Result<(), EngineError>,
    cmds: Vec<Command>,
)
    requires
        call_ensures(ConstructEngine::transport_result, (e, outcome), cmds),
    ensures
        final(e)@.stream_open == old(e)@.stream_open,
        final(e)@.stream_params == old(e)@.stream_params,
        final(e)@.core_ready == old(e)@.core_ready,
        outcome is Ok ==> final(e)@.phase == (LoopPhase::Connecting { delay: 1, reopen: false })
            && cmds@.len() == 1 && cmds@[0] is Connect,
        outcome is Err ==> final(e)@.phase is Stopped && cmds@.len() == 2 && cmds@[1] is Stop,
        forall|text: String|
            #![trigger text@]
            outcome matches Err(error) && call_ensures(EngineError::display_text, (&error,), text)
                ==> (cmds@[0] matches Command::Emit(PlatformAction::NetworkError { message })
                && message@ == "Transport init failed: "@ + text@),
{
}

/// A stream that could be opened is open, and the platform is told so; one that could not leaves
/// the engine as it was, and the platform is told why.
pub proof fn law_stream_outcome_is_reported(
    e: &mut ConstructEngine,
    outcome: Result<(), EngineError>,
    action: PlatformAction,
)
    requires
        call_ensures(ConstructEngine::stream_result, (e, outcome), action),
    ensures
        final(e)@.phase == old(e)@.phase,
        final(e)@.stream_params == old(e)@.stream_params,
        final(e)@.core_ready == old(e)@.core_ready,
        final(e)@.stream_open == (outcome is Ok || old(e)@.stream_open),
        outcome is Ok ==> (action matches PlatformAction::StreamReady { stream_cursor }
            && stream_cursor is None),
        forall|text: String|
            #![trigger text@]
            outcome matches Err(error) && call_ensures(EngineError::display_text, (&error,), text)
                ==> (action matches PlatformAction::StreamError { message } && message@ == text@),
{
}

/// A stream that fails while it is open is reported with the reason, dropped, and opened again
/// with the subscription, if there is one. Any other end of a stream has no effect.
pub proof fn law_failed_stream_is_opened_again(
    e: &mut ConstructEngine,
    failure: Option<String>,
    cmds: Vec<Command>,
)
    requires
        call_ensures(ConstructEngine::stream_ended, (e, failure), cmds),
    ensures
        final(e)@.phase == old(e)@.phase,
        final(e)@.stream_params == old(e)@.stream_params,
        final(e)@.core_ready == old(e)@.core_ready,
        failure is None || !old(e)@.stream_open ==> cmds@.len() == 0 && final(e)@.stream_open
            == old(e)@.stream_open,
        failure is Some && old(e)@.stream_open ==> {
            &&& !final(e)@.stream_open
            &&& cmds@.len() == if old(e)@.stream_params is Some {
                3nat
            } else {
                2
            }
            &&& cmds@[0] matches Command::Emit(PlatformAction::StreamError { message }) && failure
                == Some(message)
            &&& cmds@[1] is DropStream
            &&& old(e)@.stream_params is Some ==> (cmds@[2] matches Command::OpenStream {
                conversation_ids,
                since_cursor,
            } && old(e)@.stream_params == Some((conversation_ids@, since_cursor)))
        },
{
}

/// A frame that arrives is saved whole, byte for byte.
pub proof fn law_arrived_frame_is_saved(frame: &Bytes, action: PlatformAction)
    requires
        call_ensures(ConstructEngine::incoming_frame, (frame,), action),
    ensures
        action matches PlatformAction::SaveMessage {
            envelope_bytes,
            sender_id,
            conversation_id,
            timestamp,
        } && envelope_bytes@ == bytes_content(*frame) && sender_id@.len() == 0
            && conversation_id@.len() == 0 && timestamp == 0,
{
}

/// The core that was built last decides whether there is one; a failure is handed on and changes
/// nothing.
pub proof fn law_built_core_is_taken(
    e: &mut ConstructEngine,
    built: Result<bool, EngineError>,
    r: Result<(), EngineError>,
)
    requires
        call_ensures(ConstructEngine::init_core_from_keys, (e, built), r),
    ensures
        final(e)@.phase == old(e)@.phase,
        final(e)@.stream_open == old(e)@.stream_open,
        final(e)@.stream_params == old(e)@.stream_params,
        r is Ok == built is Ok,
        built matches Ok(ready) ==> final(e)@.core_ready == ready,
        built matches Err(why) ==> final(e)@.core_ready == old(e)@.core_ready && r == Err::<
            (),
            EngineError,
        >(why),
{
}

/// What the engine answers about itself is its state.
pub proof fn law_engine_answers_its_state(
    e: &ConstructEngine,
    phase: LoopPhase,
    open: bool,
    ready: bool,
)
    requires
        call_ensures(ConstructEngine::phase, (e,), phase),
        call_ensures(ConstructEngine::stream_open, (e,), open),
        call_ensures(ConstructEngine::core_ready, (e,), ready),
    ensures
        e@.phase == phase,
        e@.stream_open == open,
        e@.core_ready == ready,
{
}

/// A failed start names what failed and why.
pub proof fn law_failed_start_names_its_cause(step: StartStep, cause: &str, error: EngineError)
    requires
        call_ensures(start_failure, (step, cause), error),
    ensures
        error matches EngineError::Internal { message } && {
            &&& step is Runtime ==> message@ == "tokio runtime: "@ + cause@
            &&& step is Thread ==> message@ == "thread spawn: "@ + cause@
        },
{
}

// ---- Runs ------------------------------------------------------------------

/// What can happen to a running engine.
pub enum Happening {
    /// The platform sent an event.
    Event(UiEvent),
    /// Something happened to the connection.
    Link(LinkEvent),
    /// An attempt to open the message stream ended.
    StreamResult(Result<(), EngineError>),
    /// The message stream ended.
    StreamEnded(Option<String>),
    /// A crypto core was built, or could not be.
    CoreBuilt(Result<bool, EngineError>),
}

/// Whether the engine can go from one state to another when something happens to it, with these
/// commands.
pub open spec fn can_happen(
    pre: EngineView,
    h: Happening,
    post: EngineView,
    cmds: Seq<Command>,
) -> bool {
    match h {
        Happening::Event(event) => exists|t: TransportView, now: u64| #[trigger]
            is_handled(pre, t, event, now, post, cmds),
        Happening::Link(event) => {
            &&& link_event_fits(pre.phase, event)
            &&& exists|t: TransportView, t2: TransportView| #[trigger]
                is_link_step(pre, t, event, post, t2, cmds)
        },
        Happening::StreamResult(outcome) => {
            &&& post == (EngineView { stream_open: outcome is Ok || pre.stream_open, ..pre })
            &&& cmds.len() == 1
            &&& cmds[0] is Emit
        },
        Happening::StreamEnded(failure) => is_stream_end(pre, failure, post, cmds),
        Happening::CoreBuilt(built) => {
            &&& post == (EngineView { core_ready: post.core_ready, ..pre })
            &&& cmds.len() == 0
        },
    }
}

/// Each call on an engine is something that can happen to it.
pub proof fn law_calls_can_happen(
    e: &mut ConstructEngine,
    t: &Transport,
    t2: &mut Transport,
    event: UiEvent,
    now: u64,
    change: LinkEvent,
    outcome: Result<(), EngineError>,
    failure: Option<String>,
    built: Result<bool, EngineError>,
    cmds: Vec<Command>,
    action: PlatformAction,
    r: Result<(), EngineError>,
)
    ensures
        call_ensures(ConstructEngine::handle_event_at, (e, t, event, now), cmds) || call_ensures(
            ConstructEngine::handle_event,
            (e, t, event),
            cmds,
        ) ==> can_happen(old(e)@, Happening::Event(event), final(e)@, cmds@),
        call_ensures(ConstructEngine::on_link_event, (e, t2, change), cmds) && link_event_fits(
            old(e)@.phase,
            change,
        ) ==> can_happen(old(e)@, Happening::Link(change), final(e)@, cmds@),
        call_ensures(ConstructEngine::stream_result, (e, outcome), action) ==> can_happen(
            old(e)@,
            Happening::StreamResult(outcome),
            final(e)@,
            seq![Command::Emit(action)],
        ),
        call_ensures(ConstructEngine::stream_ended, (e, failure), cmds) ==> can_happen(
            old(e)@,
            Happening::StreamEnded(failure),
            final(e)@,
            cmds@,
        ),
        call_ensures(ConstructEngine::init_core_from_keys, (e, built), r) ==> can_happen(
            old(e)@,
            Happening::CoreBuilt(built),
            final(e)@,
            Seq::empty(),
        ),
{
}

/// Whether the engine went through these states as these things happened to it, answering each
/// with commands.
pub open spec fn is_engine_run(
    states: Seq<EngineView>,
    happenings: Seq<Happening>,
    commands: Seq<Seq<Command>>,
) -> bool {
    &&& states.len() == happenings.len() + 1
    &&& commands.len() == happenings.len()
    &&& forall|i: int| #![trigger happenings[i]]
        0 <= i < happenings.len() ==> can_happen(
            states[i],
            happenings[i],
            states[i + 1],
            commands[i],
        )
}

/// Whether something that happens is that the platform opens the message stream.
pub open spec fn opens_stream(h: Happening) -> bool {
    h matches Happening::Event(UiEvent::OpenMessageStream { .. })
}

/// Only opening the message stream changes the subscription, and the stream is never opened with
/// another one.
proof fn lemma_subscription_is_kept(
    pre: EngineView,
    h: Happening,
    post: EngineView,
    cmds: Seq<Command>,
)
    requires
        can_happen(pre, h, post, cmds),
    ensures
        !opens_stream(h) ==> post.stream_params == pre.stream_params,
        h matches Happening::Event(
            UiEvent::OpenMessageStream { conversation_ids, since_cursor },
        ) ==> post.stream_params == Some((conversation_ids@, since_cursor)),
        forall|k: int| #![trigger cmds[k]]
            0 <= k < cmds.len() ==> (cmds[k] matches Command::OpenStream {
                conversation_ids,
                since_cursor,
            } ==> post.stream_params == Some((conversation_ids@, since_cursor))),
{
}

/// After the platform has opened the message stream, and until it opens it anew, the stream is
/// opened with exactly the conversations and the cursor of that event: at once, after a failure of
/// the stream, and after every loss of the connection, whatever else happens.
pub proof fn law_stream_is_opened_as_asked(
    states: Seq<EngineView>,
    happenings: Seq<Happening>,
    commands: Seq<Seq<Command>>,
    i: int,
    j: int,
    k: int,
)
    requires
        is_engine_run(states, happenings, commands),
        0 <= i <= j < happenings.len(),
        opens_stream(happenings[i]),
        forall|n: int| #![trigger happenings[n]] i < n <= j ==> !opens_stream(happenings[n]),
        0 <= k < commands[j].len(),
        commands[j][k] is OpenStream,
    ensures
        happenings[i] matches Happening::Event(
            UiEvent::OpenMessageStream { conversation_ids: ids, since_cursor: cursor },
        ) && (commands[j][k] matches Command::OpenStream { conversation_ids, since_cursor }
            && conversation_ids@ == ids@ && since_cursor == cursor),
{
    lemma_subscription_over_run(states, happenings, commands, i, j);
    lemma_subscription_is_kept(states[j], happenings[j], states[j + 1], commands[j]);
}

proof fn lemma_subscription_over_run(
    states: Seq<EngineView>,
    happenings: Seq<Happening>,
    commands: Seq<Seq<Command>>,
    i: int,
    j: int,
)
    requires
        is_engine_run(states, happenings, commands),
        0 <= i <= j < happenings.len(),
        opens_stream(happenings[i]),
        forall|n: int| #![trigger happenings[n]] i < n <= j ==> !opens_stream(happenings[n]),
    ensures
        happenings[i] matches Happening::Event(
            UiEvent::OpenMessageStream { conversation_ids, since_cursor },
        ) && states[j + 1].stream_params == Some((conversation_ids@, since_cursor)),
    decreases j - i,
{
    let h = happenings[j];
    lemma_subscription_is_kept(states[j], h, states[j + 1], commands[j]);
    if i < j {
        lemma_subscription_over_run(states, happenings, commands, i, j - 1);
    }
}

/// Whether something that happens is that a connection attempt succeeded.
pub open spec fn connects(h: Happening) -> bool {
    h matches Happening::Link(LinkEvent::Connected)
}

/// From the loss of the connection until it is restored the engine goes on trying.
proof fn lemma_outage_lasts(
    states: Seq<EngineView>,
    happenings: Seq<Happening>,
    commands: Seq<Seq<Command>>,
    l: int,
    j: int,
)
    requires
        is_engine_run(states, happenings, commands),
        0 <= l < j <= happenings.len(),
        happenings[l] matches Happening::Link(LinkEvent::Lost),
        forall|n: int| #![trigger happenings[n]] l < n < j ==> !connects(happenings[n]),
    ensures
        match states[j].phase {
            LoopPhase::Connecting { reopen, .. } => reopen,
            LoopPhase::Waiting { reopen, .. } => reopen,
            _ => false,
        },
    decreases j - l,
{
    let h = happenings[j - 1];
    assert(can_happen(states[j - 1], h, states[j], commands[j - 1]));
    if l < j - 1 {
        lemma_outage_lasts(states, happenings, commands, l, j - 1);
    }
}

/// When the connection is lost and restored, the message stream is opened again as the platform
/// last asked: for a run in which the platform opens the stream, does not open it anew, and the
/// connection is lost and then restored, the engine's answer to the restored connection is to
/// report it and to open the stream with exactly the conversations and the cursor of that event.
pub proof fn law_restored_connection_resumes_the_stream(
    states: Seq<EngineView>,
    happenings: Seq<Happening>,
    commands: Seq<Seq<Command>>,
    i: int,
    l: int,
    j: int,
)
    requires
        is_engine_run(states, happenings, commands),
        0 <= i < l < j < happenings.len(),
        opens_stream(happenings[i]),
        forall|n: int| #![trigger happenings[n]] i < n <= j ==> !opens_stream(happenings[n]),
        happenings[l] matches Happening::Link(LinkEvent::Lost),
        forall|n: int| #![trigger happenings[n]] l < n < j ==> !connects(happenings[n]),
        connects(happenings[j]),
    ensures
        commands[j].len() == 2,
        commands[j][0] matches Command::Emit(PlatformAction::ConnectionStateChanged { connected })
            && connected,
        happenings[i] matches Happening::Event(
            UiEvent::OpenMessageStream { conversation_ids: ids, since_cursor: cursor },
        ) && (commands[j][1] matches Command::OpenStream { conversation_ids, since_cursor }
            && conversation_ids@ == ids@ && since_cursor == cursor),
{
    let h = happenings[j];
    lemma_outage_lasts(states, happenings, commands, l, j);
    lemma_subscription_over_run(states, happenings, commands, i, j - 1);
    assert(can_happen(states[j], h, states[j + 1], commands[j]));
}

/// The same of three calls in a row: what the platform asked for, the loss of the connection and
/// its restoration.
pub proof fn law_lost_stream_is_resumed(
    e1: &mut ConstructEngine,
    t: &Transport,
    ids: Vec<String>,
    cursor: Option<String>,
    opened: Vec<Command>,
    e2: &mut ConstructEngine,
    t2: &mut Transport,
    lost: Vec<Command>,
    e3: &mut ConstructEngine,
    t3: &mut Transport,
    restored: Vec<Command>,
)
    requires
        call_ensures(
            ConstructEngine::handle_event,
            (e1, t, UiEvent::OpenMessageStream { conversation_ids: ids, since_cursor: cursor }),
            opened,
        ),
        *e2 == *final(e1),
        call_ensures(ConstructEngine::on_link_event, (e2, t2, LinkEvent::Lost), lost),
        *e3 == *final(e2),
        call_ensures(ConstructEngine::on_link_event, (e3, t3, LinkEvent::Connected), restored),
    ensures
        opened@.len() == 1,
        opened@[0] matches Command::OpenStream { conversation_ids, since_cursor }
            && conversation_ids@ == ids@ && since_cursor == cursor,
        restored@.len() == 2,
        restored@[1] matches Command::OpenStream { conversation_ids, since_cursor }
            && conversation_ids@ == ids@ && since_cursor == cursor,
{
}

/// The wait that a phase holds, if it holds one.
pub open spec fn held_delay(phase: LoopPhase) -> Option<u64> {
    match phase {
        LoopPhase::Connecting { delay, .. } => Some(delay),
        LoopPhase::Waiting { delay, .. } => Some(delay),
        _ => None,
    }
}

/// How many of the first things that happen are failed connection attempts.
pub open spec fn failed_attempts(happenings: Seq<Happening>) -> nat
    decreases happenings.len(),
{
    if happenings.len() == 0 {
        0
    } else {
        failed_attempts(happenings.drop_last()) + if happenings.last() matches Happening::Link(
            LinkEvent::ConnectFailed(_, _),
        ) {
            1nat
        } else {
            0
        }
    }
}

proof fn lemma_outage_delay(
    states: Seq<EngineView>,
    happenings: Seq<Happening>,
    commands: Seq<Seq<Command>>,
    l: int,
    j: int,
)
    requires
        is_engine_run(states, happenings, commands),
        0 <= l < j <= happenings.len(),
        happenings[l] matches Happening::Link(LinkEvent::Lost),
        forall|n: int| #![trigger happenings[n]] l < n < j ==> !connects(happenings[n]),
    ensures
        ({
            let n = failed_attempts(happenings.subrange(l, j));
            held_delay(states[j].phase) == Some(
                if pow2(n) < 60 {
                    pow2(n) as u64
                } else {
                    60
                },
            )
        }),
    decreases j - l,
{
    let part = happenings.subrange(l, j);
    let shorter = happenings.subrange(l, j - 1);
    let h = happenings[j - 1];
    assert(part.drop_last() =~= shorter);
    assert(part.last() == h);
    assert(can_happen(states[j - 1], h, states[j], commands[j - 1]));
    lemma2_to64();
    if l < j - 1 {
        lemma_outage_delay(states, happenings, commands, l, j - 1);
        lemma_outage_lasts(states, happenings, commands, l, j - 1);
        let n = failed_attempts(shorter);
        lemma_pow2_unfold(n + 1);
        if h matches Happening::Link(LinkEvent::ConnectFailed(_, _)) {
            assert(failed_attempts(part) == n + 1);
        } else {
            assert(failed_attempts(part) == n);
        }
    } else {
        assert(shorter =~= Seq::empty());
        assert(failed_attempts(shorter) == 0);
        assert(h == happenings[l]);
    }
}

/// During an outage each failed attempt is followed by a wait: one second after the first, and
/// after each further one twice as long as before, up to a minute, whatever else happens
/// meanwhile.
pub proof fn law_waits_double_up_to_a_minute(
    states: Seq<EngineView>,
    happenings: Seq<Happening>,
    commands: Seq<Seq<Command>>,
    l: int,
    j: int,
)
    requires
        is_engine_run(states, happenings, commands),
        0 <= l < j < happenings.len(),
        happenings[l] matches Happening::Link(LinkEvent::Lost),
        forall|n: int| #![trigger happenings[n]] l < n < j ==> !connects(happenings[n]),
        happenings[j] matches Happening::Link(LinkEvent::ConnectFailed(_, _)),
    ensures
        commands[j].len() == 2,
        commands[j][1] matches Command::Sleep(wait) && wait == ({
            let n = failed_attempts(happenings.subrange(l, j));
            if pow2(n) < 60 {
                pow2(n) as u64
            } else {
                60
            }
        }),
{
    let h = happenings[j];
    lemma_outage_delay(states, happenings, commands, l, j);
    assert(can_happen(states[j], h, states[j + 1], commands[j]));
}

} // verus!
