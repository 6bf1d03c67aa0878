//! Laws of the events that the platform sends to the engine.

use vstd::prelude::*;

use crate::engine::{Command, ConstructEngine, Pending, RpcRequest};
use crate::events::UiEvent;
use crate::messages::StreamPayload;
use crate::transport::Transport;

verus! {

/// Signing in, refreshing a token and signing out are one call each, to the method of that name,
/// with what the event holds: the signature is the response to the challenge, the time is the
/// time of the event, and the token to revoke is the configured one. The engine stays as it was.
pub proof fn law_session_events_become_calls(
    e: &mut ConstructEngine,
    t: &Transport,
    event: UiEvent,
    now: u64,
    cmds: Vec<Command>,
)
    requires
        call_ensures(ConstructEngine::handle_event_at, (e, t, event, now), cmds) || call_ensures(
            ConstructEngine::handle_event,
            (e, t, event),
            cmds,
        ),
        event is Authenticate || event is RefreshToken || event is Logout,
    ensures
        final(e)@ == old(e)@,
        cmds@.len() == 1,
        cmds@[0] is Call,
        event matches UiEvent::Authenticate { device_id: id, challenge_response, .. } ==> {
            &&& cmds@[0]->path@
                == "/shared.proto.services.v1.AuthService/AuthenticateDevice"@
            &&& cmds@[0]->pending is Authenticate
            &&& cmds@[0]->Call_request matches RpcRequest::Authenticate { device_id, signature, .. }
                && device_id == id && signature == challenge_response
        },
        event matches UiEvent::RefreshToken { refresh_token: token } ==> {
            &&& cmds@[0]->path@ == "/shared.proto.services.v1.AuthService/RefreshToken"@
            &&& cmds@[0]->pending is RefreshToken
            &&& cmds@[0]->Call_request matches RpcRequest::RefreshToken {
                refresh_token,
                device_id,
            } && refresh_token == token && device_id == t@.config.my_device_id
        },
        event is Logout ==> {
            &&& cmds@[0]->path@ == "/shared.proto.services.v1.AuthService/Logout"@
            &&& cmds@[0]->pending is Logout
            &&& cmds@[0]->Call_request matches RpcRequest::Logout { access_token, all_devices }
                && !all_devices && (t@.config.auth_token matches Some(token) ==> access_token@
                == token@) && (t@.config.auth_token is None ==> access_token@.len() == 0)
        },
{
}

/// The time that an event carries to the server is the time at which it is handled.
pub proof fn law_events_carry_their_time(
    e: &mut ConstructEngine,
    t: &Transport,
    event: UiEvent,
    now: u64,
    cmds: Vec<Command>,
)
    requires
        call_ensures(ConstructEngine::handle_event_at, (e, t, event, now), cmds),
    ensures
        event is Authenticate ==> (cmds@[0] matches Command::Call {
            request: RpcRequest::Authenticate { timestamp, .. },
            ..
        } && timestamp == now as i64),
        event is AckMessage && old(e)@.stream_open ==> (cmds@[0] matches Command::SendFrame(
            frame,
        ) && (frame.request matches StreamPayload::Receipt { timestamp, .. } && timestamp
            == now as i64)),
{
}

/// Asking about keys, bundles, users and push tokens is one call each, to the method of that
/// name, with what the event holds. A new session starts with the contact's bundle, whichever of
/// the contact's devices it is for. The engine stays as it was.
pub proof fn law_lookup_events_become_calls(
    e: &mut ConstructEngine,
    t: &Transport,
    event: UiEvent,
    now: u64,
    cmds: Vec<Command>,
)
    requires
        call_ensures(ConstructEngine::handle_event_at, (e, t, event, now), cmds) || call_ensures(
            ConstructEngine::handle_event,
            (e, t, event),
            cmds,
        ),
        event is FetchPreKeyBundle || event is UploadPreKeys || event is GetPreKeyCount || event
            is SearchUser || event is RegisterPushToken || event is InitSessionInitiator,
    ensures
        final(e)@ == old(e)@,
        cmds@.len() == 1,
        cmds@[0] is Call,
        event matches UiEvent::FetchPreKeyBundle { user_id: user, device_id: device } ==> {
            &&& cmds@[0]->path@ == "/shared.proto.services.v1.KeyService/GetPreKeyBundle"@
            &&& cmds@[0]->Call_request matches RpcRequest::GetPreKeyBundle { user_id, device_id }
                && user_id == user && device_id == device
            &&& cmds@[0]->pending matches Pending::FetchPreKeyBundle { user_id } && user_id == user
        },
        event matches UiEvent::UploadPreKeys { request_bytes, .. } ==> {
            &&& cmds@[0]->path@ == "/shared.proto.services.v1.KeyService/UploadPreKeys"@
            &&& cmds@[0]->Call_request matches RpcRequest::Encoded(sent) && sent == request_bytes
            &&& cmds@[0]->pending is UploadPreKeys
        },
        event matches UiEvent::GetPreKeyCount { device_id: device } ==> {
            &&& cmds@[0]->path@ == "/shared.proto.services.v1.KeyService/GetPreKeyCount"@
            &&& cmds@[0]->Call_request matches RpcRequest::GetPreKeyCount { device_id } && device_id
                == device
            &&& cmds@[0]->pending matches Pending::GetPreKeyCount { device_id } && device_id
                == device
        },
        event matches UiEvent::SearchUser { query } ==> {
            &&& cmds@[0]->path@ == "/shared.proto.services.v1.UserService/FindUser"@
            &&& cmds@[0]->Call_request matches RpcRequest::FindUser { username } && username == query
            &&& cmds@[0]->pending is SearchUser
        },
        event matches UiEvent::RegisterPushToken { token, .. } ==> {
            &&& cmds@[0]->path@
                == "/shared.proto.services.v1.NotificationService/RegisterDeviceToken"@
            &&& cmds@[0]->Call_request matches RpcRequest::RegisterDeviceToken {
                device_token,
                device_id,
            } && device_token == token && device_id == t@.config.my_device_id
            &&& cmds@[0]->pending is RegisterPush
        },
        event matches UiEvent::InitSessionInitiator { contact_id: contact } ==> {
            &&& cmds@[0]->path@ == "/shared.proto.services.v1.KeyService/GetPreKeyBundle"@
            &&& cmds@[0]->Call_request matches RpcRequest::GetPreKeyBundle { user_id, device_id }
                && user_id == contact && device_id is None
            &&& cmds@[0]->pending matches Pending::InitSession { contact_id } && contact_id
                == contact
        },
{
}

/// Work that needs the crypto core is handed to it with what the event holds, and left undone
/// while there is no core. The engine stays as it was.
pub proof fn law_core_events_need_a_core(
    e: &mut ConstructEngine,
    t: &Transport,
    event: UiEvent,
    now: u64,
    cmds: Vec<Command>,
)
    requires
        call_ensures(ConstructEngine::handle_event_at, (e, t, event, now), cmds) || call_ensures(
            ConstructEngine::handle_event,
            (e, t, event),
            cmds,
        ),
        event is UploadOtpks || event is RotateSignedPreKey || event is RegisterDevice,
    ensures
        final(e)@ == old(e)@,
        cmds@.len() == if old(e)@.core_ready {
            1nat
        } else {
            0
        },
        old(e)@.core_ready ==> match event {
            UiEvent::UploadOtpks { device_id: device, count: wanted } => {
                cmds@[0] matches Command::GenerateOtpks { device_id, count } && device_id == device
                    && count == wanted
            },
            UiEvent::RotateSignedPreKey { device_id: device } => {
                cmds@[0] matches Command::RotateSpk { device_id } && device_id == device
            },
            UiEvent::RegisterDevice { username: name, device_id: device } => {
                cmds@[0] matches Command::FetchChallenge { username, device_id } && username == name
                    && device_id == device
            },
            _ => true,
        },
{
}

/// A crypto core is built from exactly the private keys that the Keychain returned, for the
/// configured user. Any other item of the Keychain, and an item that was not found, has no effect.
pub proof fn law_core_is_built_from_private_keys(
    e: &mut ConstructEngine,
    t: &Transport,
    event: UiEvent,
    now: u64,
    cmds: Vec<Command>,
)
    requires
        call_ensures(ConstructEngine::handle_event_at, (e, t, event, now), cmds) || call_ensures(
            ConstructEngine::handle_event,
            (e, t, event),
            cmds,
        ),
        event is KeychainResult,
    ensures
        final(e)@ == old(e)@,
        event matches UiEvent::KeychainResult { key, data } && {
            &&& data is None || key@ != "private_keys"@ ==> cmds@.len() == 0
            &&& data is Some && key@ == "private_keys"@ ==> {
                &&& cmds@.len() == 1
                &&& cmds@[0] matches Command::BuildCore { keys, user_id } && Some(keys) == data
                    && user_id == t@.config.my_user_id
            }
        },
{
}

/// Opening the message stream asks for the event's conversations from the event's cursor on, and
/// keeps both for later; closing it drops the stream and keeps the subscription.
pub proof fn law_stream_events_steer_the_stream(
    e: &mut ConstructEngine,
    t: &Transport,
    event: UiEvent,
    now: u64,
    cmds: Vec<Command>,
)
    requires
        call_ensures(ConstructEngine::handle_event_at, (e, t, event, now), cmds) || call_ensures(
            ConstructEngine::handle_event,
            (e, t, event),
            cmds,
        ),
        event is OpenMessageStream || event is CloseMessageStream,
    ensures
        cmds@.len() == 1,
        final(e)@.phase == old(e)@.phase,
        final(e)@.core_ready == old(e)@.core_ready,
        event matches UiEvent::OpenMessageStream { conversation_ids: ids, since_cursor: cursor } ==> {
            &&& cmds@[0] matches Command::OpenStream { conversation_ids, since_cursor }
                && conversation_ids@ == ids@ && since_cursor == cursor
            &&& final(e)@.stream_open == old(e)@.stream_open
            &&& final(e)@.stream_params matches Some((kept, from)) && kept == ids@ && from == cursor
        },
        event is CloseMessageStream ==> {
            &&& cmds@[0] is DropStream
            &&& !final(e)@.stream_open
            &&& final(e)@.stream_params == old(e)@.stream_params
        },
{
}

/// A message or an acknowledgement goes out as one frame over an open stream, and is dropped
/// without one. The frame holds what the event holds, under the id by which the sender knows it;
/// an acknowledgement reports the one message as delivered. The engine stays as it was.
pub proof fn law_messages_need_a_stream(
    e: &mut ConstructEngine,
    t: &Transport,
    event: UiEvent,
    now: u64,
    cmds: Vec<Command>,
)
    requires
        call_ensures(ConstructEngine::handle_event_at, (e, t, event, now), cmds) || call_ensures(
            ConstructEngine::handle_event,
            (e, t, event),
            cmds,
        ),
        event is SendMessage || event is AckMessage,
    ensures
        final(e)@ == old(e)@,
        !old(e)@.stream_open ==> cmds@.len() == 0,
        old(e)@.stream_open ==> cmds@.len() == 1 && cmds@[0] is SendFrame,
        old(e)@.stream_open ==> (event matches UiEvent::SendMessage {
            encrypted_payload,
            local_id,
            conversation_id,
            ..
        } ==> (cmds@[0] matches Command::SendFrame(frame) && {
            &&& frame.request_id == local_id
            &&& frame.attempt_id == Some(local_id)
            &&& frame.request matches StreamPayload::Send(sent) && sent.encrypted_payload
                == encrypted_payload && sent.conversation_id == conversation_id && sent.message_id
                == local_id
        })),
        old(e)@.stream_open ==> (event matches UiEvent::AckMessage { message_id, .. } ==> (cmds@[0]
            matches Command::SendFrame(frame) && {
            &&& frame.request_id == message_id
            &&& frame.attempt_id is None
            &&& frame.request matches StreamPayload::Receipt { message_ids, status, .. }
                && message_ids@.len() == 1 && message_ids@[0] == message_id && status == 1
        })),
{
}

/// Events that the engine only takes note of have no effect.
pub proof fn law_other_events_have_no_effect(
    e: &mut ConstructEngine,
    t: &Transport,
    event: UiEvent,
    now: u64,
    cmds: Vec<Command>,
)
    requires
        call_ensures(ConstructEngine::handle_event_at, (e, t, event, now), cmds) || call_ensures(
            ConstructEngine::handle_event,
            (e, t, event),
            cmds,
        ),
        event is PlatformReady || event is Signal || event is P2PHandoffInitiate || event
            is P2PHandoffAck,
    ensures
        final(e)@ == old(e)@,
        cmds@.len() == 0,
{
}

} // verus!
