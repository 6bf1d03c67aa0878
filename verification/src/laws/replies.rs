//! Laws of replies from the server and of results of the crypto core.

use vstd::prelude::*;

use crate::engine::{Command, ConstructEngine, CoreResult, Pending, Reply, RpcRequest};
use crate::error::EngineError;
use crate::events::PlatformAction;
use crate::transport::Transport;

verus! {

/// The tokens that a reply carries: access token, refresh token, expiry, and the user if the
/// reply names one.
pub open spec fn carried_tokens(pending: Pending, reply: Reply) -> Option<
    (Seq<char>, Seq<char>, i64, Seq<char>),
> {
    match (pending, reply) {
        (Pending::Authenticate, Reply::Authenticated { tokens: Some(t) }) => Some(
            (t.access_token@, t.refresh_token@, t.expires_at, Seq::empty()),
        ),
        (
            Pending::RefreshToken,
            Reply::Refreshed { access_token, refresh_token: Some(r), expires_at },
        ) => Some((access_token@, r@, expires_at, Seq::empty())),
        (
            Pending::RefreshToken,
            Reply::Refreshed { access_token, refresh_token: None, expires_at },
        ) => Some((access_token@, Seq::empty(), expires_at, Seq::empty())),
        (Pending::RegisterDevice { .. }, Reply::Registered { user_id, tokens: t }) => Some(
            (t.access_token@, t.refresh_token@, t.expires_at, user_id@),
        ),
        _ => None,
    }
}

/// Whenever a reply carries tokens, the first command has the platform store exactly these: the
/// reply's access token, refresh token (empty if the reply has none), expiry and user (empty if
/// the reply names none). The transport sends the access token from then on, and nothing else of
/// it changes.
pub proof fn law_carried_tokens_are_stored(
    e: &ConstructEngine,
    t: &mut Transport,
    pending: Pending,
    reply: Reply,
    cmds: Vec<Command>,
)
    requires
        call_ensures(ConstructEngine::handle_reply, (e, t, pending, reply), cmds),
        carried_tokens(pending, reply) is Some,
    ensures
        carried_tokens(pending, reply) matches Some((access, refresh, expiry, user)) && {
            &&& cmds@.len() >= 1
            &&& cmds@[0] matches Command::Emit(
                PlatformAction::SetAuthToken { user_id, access_token, refresh_token, expires_at },
            ) && access_token@ == access && refresh_token@ == refresh && expires_at == expiry
                && user_id@ == user
            &&& final(t)@.token matches Some(token) && token@ == access
        },
        final(t)@.config == old(t)@.config,
        final(t)@.connected == old(t)@.connected,
        !(pending is RegisterDevice) ==> cmds@.len() == 1,
        pending is RegisterDevice ==> {
            &&& cmds@.len() == 2
            &&& cmds@[1] matches Command::Emit(
                PlatformAction::RegistrationComplete { user_id, device_id },
            ) && user_id == reply->Registered_user_id && device_id
                == pending->RegisterDevice_device_id
        },
{
}

/// Tokens are stored only when a reply carries some; without, the token in use stays as it was,
/// except that a logout removes it.
pub proof fn law_no_tokens_out_of_nothing(
    e: &ConstructEngine,
    t: &mut Transport,
    pending: Pending,
    reply: Reply,
    cmds: Vec<Command>,
    i: int,
)
    requires
        call_ensures(ConstructEngine::handle_reply, (e, t, pending, reply), cmds),
        carried_tokens(pending, reply) is None,
    ensures
        0 <= i < cmds@.len() ==> !(cmds@[i] matches Command::Emit(
            PlatformAction::SetAuthToken { .. },
        )),
        pending is Logout ==> final(t)@.token is None,
        !(pending is Logout) ==> final(t)@.token == old(t)@.token,
        final(t)@.config == old(t)@.config,
        final(t)@.connected == old(t)@.connected,
{
    if pending is InitSession && 0 <= i < cmds@.len() - 1 {
        assert(cmds@.drop_last()[i] == cmds@[i]);
    }
}

/// A logout clears the platform's tokens whatever the server says, and does nothing else.
pub proof fn law_logout_always_clears(
    e: &ConstructEngine,
    t: &mut Transport,
    reply: Reply,
    cmds: Vec<Command>,
)
    requires
        call_ensures(ConstructEngine::handle_reply, (e, t, Pending::Logout, reply), cmds),
    ensures
        cmds@.len() == 1,
        cmds@[0] matches Command::Emit(PlatformAction::ClearAuth),
{
}

/// A failed call makes the platform forget its tokens if the credentials were rejected, and only
/// then. Beyond that nothing happens, except that a session that could not be started is reported
/// with the reason.
pub proof fn law_failed_calls(
    e: &ConstructEngine,
    t: &mut Transport,
    pending: Pending,
    error: EngineError,
    text: String,
    cmds: Vec<Command>,
)
    requires
        call_ensures(ConstructEngine::handle_reply, (e, t, pending, Reply::Failed(error)), cmds),
        call_ensures(EngineError::display_text, (&error,), text),
        !(pending is Logout),
    ensures
        final(t)@ == old(t)@,
        ({
            let cleared: int = if error is Unauthenticated {
                1
            } else {
                0
            };
            let reported: int = if pending is InitSession {
                1
            } else {
                0
            };
            &&& cmds@.len() == cleared + reported
            &&& error is Unauthenticated ==> (cmds@[0] matches Command::Emit(
                PlatformAction::ClearAuth,
            ))
            &&& pending matches Pending::InitSession { contact_id: contact } ==> (
            cmds@.last() matches Command::Emit(
                PlatformAction::SessionError { contact_id, message },
            ) && contact_id == contact && message@ == text@)
        }),
{
    if pending is InitSession {
        if error is Unauthenticated {
            assert(cmds@.drop_last()[0] == cmds@[0]);
        }
    }
}

/// A reply that could not be decoded, and one whose content the engine has no use for, has no
/// effect.
pub proof fn law_undecodable_replies_have_no_effect(
    e: &ConstructEngine,
    t: &mut Transport,
    pending: Pending,
    reply: Reply,
    cmds: Vec<Command>,
)
    requires
        call_ensures(ConstructEngine::handle_reply, (e, t, pending, reply), cmds),
        reply is Undecodable || reply is UserFound || (reply matches Reply::Authenticated {
            tokens: None,
        }) || (reply is Raw && (pending is UploadPreKeys || pending is RegisterPush)),
        !(pending is Logout),
    ensures
        final(t)@ == old(t)@,
        cmds@.len() == 0,
{
}

/// What the server answers about keys reaches the platform unchanged, with what the call was made
/// for. When the server has fewer one-time pre-keys than it recommends and there is a core, the
/// missing ones are generated, no more and no fewer.
pub proof fn law_key_replies_reach_the_platform(
    e: &ConstructEngine,
    t: &mut Transport,
    pending: Pending,
    reply: Reply,
    cmds: Vec<Command>,
)
    requires
        call_ensures(ConstructEngine::handle_reply, (e, t, pending, reply), cmds),
    ensures
        (pending is FetchPreKeyBundle && reply is Raw) ==> final(t)@ == old(t)@ && cmds@.len() == 1
            && (cmds@[0] matches Command::Emit(
            PlatformAction::PreKeyBundleReady { user_id, bundle_bytes },
        ) && user_id == pending->FetchPreKeyBundle_user_id && bundle_bytes == reply->Raw_0),
        (pending is UploadOtpks && reply is OtpksStored) ==> final(t)@ == old(t)@ && cmds@.len()
            == 1 && (cmds@[0] matches Command::Emit(
            PlatformAction::OtpksUploaded { uploaded, server_count },
        ) && uploaded == pending->UploadOtpks_count && server_count
            == reply->server_count),
        (pending is RotateSignedPreKey && reply is Raw) ==> final(t)@ == old(t)@ && cmds@.len() == 1
            && (cmds@[0] matches Command::Emit(PlatformAction::SpkRotated { key_id }) && key_id
            == pending->key_id),
        (pending is InitSession && reply is Raw) ==> final(t)@ == old(t)@ && cmds@.len() == 1 && (
        cmds@[0] matches Command::InitSession { contact_id, bundle_bytes } && contact_id
            == pending->contact_id && bundle_bytes == reply->Raw_0),
        (pending is GetPreKeyCount && reply is PreKeyCount) ==> {
            let have = reply->PreKeyCount_count;
            let want = reply->recommended_minimum;
            &&& final(t)@ == old(t)@
            &&& cmds@.len() == if have < want && e@.core_ready {
                2nat
            } else {
                1
            }
            &&& cmds@[0] matches Command::Emit(
                PlatformAction::PreKeyCountUpdated { count, recommended_minimum },
            ) && count == have && recommended_minimum == want
            &&& have < want && e@.core_ready ==> (cmds@[1] matches Command::GenerateOtpks {
                device_id,
                count,
            } && device_id == pending->GetPreKeyCount_device_id && have + count == want)
        },
{
}

/// Whenever the core has changed its state and made a request, the new state is saved as the
/// private keys first, and the request's bytes are sent next: to the method that takes new
/// one-time pre-keys or the rotated signed pre-key, with the number of keys or the key's id kept
/// for the reply.
pub proof fn law_core_state_is_saved_before_the_call(
    e: &ConstructEngine,
    result: CoreResult,
    cmds: Vec<Command>,
)
    requires
        call_ensures(ConstructEngine::handle_core_result, (e, result), cmds),
        result is OtpksGenerated || result is SpkRotated,
    ensures
        cmds@.len() == 2,
        cmds@[0] matches Command::Emit(PlatformAction::SaveKeychain { key, data }) && key@
            == "private_keys"@ && data == (match result {
            CoreResult::OtpksGenerated { state, .. } => state,
            CoreResult::SpkRotated { state, .. } => state,
            _ => data,
        }),
        cmds@[1] matches Command::Call { request: RpcRequest::Encoded(sent), .. } && sent == (
        match result {
            CoreResult::OtpksGenerated { request_bytes, .. } => request_bytes,
            CoreResult::SpkRotated { request_bytes, .. } => request_bytes,
            _ => sent,
        }),
        result matches CoreResult::OtpksGenerated { count: generated, .. } ==> (
        cmds@[1] matches Command::Call {
            path,
            pending: Pending::UploadOtpks { count },
            ..
        } && path@ == "/shared.proto.services.v1.KeyService/UploadPreKeys"@ && count == generated),
        result matches CoreResult::SpkRotated { key_id: rotated, .. } ==> (
        cmds@[1] matches Command::Call {
            path,
            pending: Pending::RotateSignedPreKey { key_id },
            ..
        } && path@ == "/shared.proto.services.v1.KeyService/RotateSignedPreKey"@ && key_id
            == rotated),
{
}

/// A solved challenge is sent as the registration of its device; the outcome of a session start is
/// told to the platform for its contact; a failed call clears rejected credentials; a failure of
/// the core itself has no effect.
pub proof fn law_other_core_results(e: &ConstructEngine, result: CoreResult, cmds: Vec<Command>)
    requires
        call_ensures(ConstructEngine::handle_core_result, (e, result), cmds),
    ensures
        result matches CoreResult::ChallengeSolved { device_id: device, request_bytes } ==> {
            &&& cmds@.len() == 1
            &&& cmds@[0] matches Command::Call {
                path,
                request: RpcRequest::Encoded(sent),
                pending: Pending::RegisterDevice { device_id },
            } && path@ == "/shared.proto.services.v1.AuthService/RegisterDevice"@ && sent
                == request_bytes && device_id == device
        },
        result matches CoreResult::SessionInitiated { contact_id: contact, wire_payload: payload }
            ==> {
            &&& cmds@.len() == 1
            &&& cmds@[0] matches Command::Emit(
                PlatformAction::SessionInitiatorReady { contact_id, wire_payload },
            ) && contact_id == contact && wire_payload == payload
        },
        result matches CoreResult::SessionFailed { contact_id: contact, message: why } ==> {
            &&& cmds@.len() == 1
            &&& cmds@[0] matches Command::Emit(
                PlatformAction::SessionError { contact_id, message },
            ) && contact_id == contact && message == why
        },
        result is Failed ==> cmds@.len() == 0,
        result matches CoreResult::CallFailed(error) ==> {
            &&& cmds@.len() == if error is Unauthenticated {
                1nat
            } else {
                0
            }
            &&& error is Unauthenticated ==> (cmds@[0] matches Command::Emit(
                PlatformAction::ClearAuth,
            ))
        },
{
}

/// What was generated, rotated or registered is what the server's consent is reported for: the
/// reply to the call that a core result leads to names the same count, key or device.
pub proof fn law_core_work_is_reported(
    e: &ConstructEngine,
    result: CoreResult,
    cmds: Vec<Command>,
    t: &mut Transport,
    reply: Reply,
    cmds2: Vec<Command>,
)
    requires
        call_ensures(ConstructEngine::handle_core_result, (e, result), cmds),
        result is OtpksGenerated || result is SpkRotated || result is ChallengeSolved,
        call_ensures(
            ConstructEngine::handle_reply,
            (e, t, cmds@.last()->pending, reply),
            cmds2,
        ),
        reply is Raw || reply is OtpksStored || reply is Registered,
    ensures
        result is OtpksGenerated && reply is OtpksStored ==> (cmds2@[0] matches Command::Emit(
            PlatformAction::OtpksUploaded { uploaded, .. },
        ) && uploaded == result->count),
        result is SpkRotated && reply is Raw ==> (cmds2@[0] matches Command::Emit(
            PlatformAction::SpkRotated { key_id },
        ) && key_id == result->key_id),
        result is ChallengeSolved && reply is Registered ==> (cmds2@[1] matches Command::Emit(
            PlatformAction::RegistrationComplete { device_id, .. },
        ) && device_id == result->device_id),
{
}

/// Which replies a call can have: a failed call always, otherwise what the called method answers.
pub proof fn law_replies_answer_their_calls(reply: &Reply, pending: &Pending, fits: bool)
    requires
        call_ensures(Reply::answers, (reply, pending), fits),
    ensures
        *reply is Failed ==> fits,
        *reply is Authenticated ==> fits == (*pending is Authenticate),
        *reply is Refreshed ==> fits == (*pending is RefreshToken),
        *reply is PreKeyCount ==> fits == (*pending is GetPreKeyCount),
        *reply is OtpksStored ==> fits == (*pending is UploadOtpks),
        *reply is UserFound ==> fits == (*pending is SearchUser),
        *reply is Registered ==> fits == (*pending is RegisterDevice),
        *reply is Raw ==> fits == (*pending is Logout || *pending is FetchPreKeyBundle || *pending
            is UploadPreKeys || *pending is RotateSignedPreKey || *pending is RegisterPush
            || *pending is InitSession),
        *reply is Undecodable ==> fits == (*pending is Authenticate || *pending is RefreshToken
            || *pending is UploadOtpks || *pending is GetPreKeyCount || *pending is SearchUser
            || *pending is RegisterDevice),
{
}

} // verus!
