//! The engine: what it does about each event, reply and connection change.
//!
//! Every entry point returns commands in the order in which the driver carries them out. Calls
//! to the server and work of the crypto core come back as replies and results.

use bytes::Bytes;
use vstd::arithmetic::power2::{lemma2_to64, lemma_pow2_unfold, pow2};
use vstd::prelude::*;
use vstd::slice::slice_to_vec;
use vstd::string::*;

use crate::buffers::{as_slice, bytes_content};
use crate::clock::unix_secs;
use crate::error::EngineError;
use crate::events::{PlatformAction, UiEvent};
use crate::messages::{Envelope, MessageStreamRequest, StreamPayload};
use crate::text::{clone_texts, decimal, decimal_text, same_text};
use crate::transport::connection::{connect_failure_text, ConnectStep};
use crate::transport::{
    Transport, TransportView, AUTH_AUTHENTICATE, AUTH_LOGOUT, AUTH_REFRESH, AUTH_REGISTER,
    KEY_COUNT, KEY_GET_BUNDLE, KEY_ROTATE_SPK, KEY_UPLOAD, NOTIFICATION_REGISTER, USER_FIND,
};

verus! {

/// Implemented by the platform, which performs the actions that the engine asks for.
pub trait EngineCallback: Send + Sync {
    fn on_action(&self, action: PlatformAction);
}

/// Keychain key under which the private keys are stored.
pub const PRIVATE_KEYS: &'static str = "private_keys";

/// Longest wait between two connection attempts, in seconds.
pub const MAX_DELAY_SECS: u64 = 60;

/// Delivery status that an acknowledgement reports.
pub const RECEIPT_STATUS_DELIVERED: i32 = 1;

// ---- Calls, replies and commands -------------------------------------------

/// A request to the server.
#[allow(inconsistent_fields)]
#[derive(Debug)]
pub enum RpcRequest {
    Authenticate { device_id: String, timestamp: i64, signature: Vec<u8> },
    RefreshToken { refresh_token: String, device_id: String },
    Logout { access_token: String, all_devices: bool },
    GetPreKeyBundle { user_id: String, device_id: Option<String> },
    GetPreKeyCount { device_id: String },
    FindUser { username: String },
    RegisterDeviceToken { device_token: String, device_id: String },
    /// A request that is already serialised.
    Encoded(Vec<u8>),
}

/// What a call was made for.
#[derive(Debug)]
pub enum Pending {
    Authenticate,
    RefreshToken,
    Logout,
    FetchPreKeyBundle { user_id: String },
    UploadPreKeys,
    UploadOtpks { count: u32 },
    GetPreKeyCount { device_id: String },
    RotateSignedPreKey { key_id: u32 },
    SearchUser,
    RegisterPush,
    RegisterDevice { device_id: String },
    InitSession { contact_id: String },
}

/// Tokens that the server issues.
#[derive(Debug)]
pub struct AuthTokens {
    pub access_token: String,
    pub refresh_token: String,
    pub expires_at: i64,
}

/// The outcome of a call.
#[allow(inconsistent_fields)]
#[derive(Debug)]
pub enum Reply {
    /// The call failed.
    Failed(EngineError),
    /// The server's message could not be decoded.
    Undecodable(String),
    /// The serialised message, for calls whose reply the engine does not look into.
    Raw(Vec<u8>),
    Authenticated { tokens: Option<AuthTokens> },
    Refreshed { access_token: String, refresh_token: Option<String>, expires_at: i64 },
    PreKeyCount { count: u32, recommended_minimum: u32 },
    OtpksStored { server_count: u32 },
    UserFound { user_id: String },
    Registered { user_id: String, tokens: AuthTokens },
}

/// What the crypto core has done.
#[derive(Debug)]
pub enum CoreResult {
    /// One-time pre-keys were generated: how many, the upload request, and the core's new state.
    OtpksGenerated { count: u32, request_bytes: Vec<u8>, state: Vec<u8> },
    /// The signed pre-key was rotated: its id, the request, and the core's new state.
    SpkRotated { key_id: u32, request_bytes: Vec<u8>, state: Vec<u8> },
    /// The challenge of a registration was solved.
    ChallengeSolved { device_id: String, request_bytes: Vec<u8> },
    /// A session with a contact was initiated: the payload to send to the contact.
    SessionInitiated { contact_id: String, wire_payload: Vec<u8> },
    /// A session with a contact could not be initiated.
    SessionFailed { contact_id: String, message: String },
    /// The core could not do its work.
    Failed(String),
    /// The call that the core's work depends on failed.
    CallFailed(EngineError),
}

/// What the driver is to do.
#[derive(Debug)]
pub enum Command {
    /// Hand an action to the platform.
    Emit(PlatformAction),
    /// Call the server and report the outcome as a `Reply`.
    Call { path: &'static str, request: RpcRequest, pending: Pending },
    /// Open the message stream and report how it went.
    OpenStream { conversation_ids: Vec<String>, since_cursor: Option<String> },
    /// Drop the handle of the message stream.
    DropStream,
    /// Send a frame over the message stream.
    SendFrame(MessageStreamRequest),
    /// Build the crypto core from a key blob and report how it went.
    BuildCore { keys: Vec<u8>, user_id: String },
    /// Let the core generate one-time pre-keys.
    GenerateOtpks { device_id: String, count: u32 },
    /// Let the core rotate the signed pre-key.
    RotateSpk { device_id: String },
    /// Fetch the challenge of a registration and let the core solve it.
    FetchChallenge { username: Option<String>, device_id: String },
    /// Let the core initiate a session from a contact's pre-key bundle.
    InitSession { contact_id: String, bundle_bytes: Vec<u8> },
    /// Connect to the server and report how it went.
    Connect,
    /// Wait this many seconds.
    Sleep(u64),
    /// Leave the event loop.
    Stop,
}

// ---- State -----------------------------------------------------------------

/// Where the event loop is.
#[derive(Debug, Clone, Copy, PartialEq, Eq, Structural)]
pub enum LoopPhase {
    /// The engine was not started.
    Created,
    /// The transport is being set up.
    Starting,
    /// A connection attempt is under way; `delay` seconds follow if it fails. `reopen` says
    /// whether the message stream was lost with the connection.
    Connecting { delay: u64, reopen: bool },
    /// Waiting for the next attempt.
    Waiting { delay: u64, reopen: bool },
    /// Connected and serving events.
    Serving,
    /// The loop has ended.
    Stopped,
}

/// The subscription of the message stream, kept for reconnecting.
#[derive(Debug)]
pub struct StreamParams {
    pub conversation_ids: Vec<String>,
    pub last_cursor: Option<String>,
}

/// The engine's state.
#[derive(Debug)]
pub struct ConstructEngine {
    phase: LoopPhase,
    stream_open: bool,
    stream_params: Option<StreamParams>,
    core_ready: bool,
}

/// The engine's state as the contracts see it.
pub struct EngineView {
    pub phase: LoopPhase,
    /// Whether a message stream is open.
    pub stream_open: bool,
    /// Conversations and cursor of the last subscription.
    pub stream_params: Option<(Seq<String>, Option<String>)>,
    /// Whether there is a crypto core.
    pub core_ready: bool,
}

impl View for ConstructEngine {
    type V = EngineView;

    closed spec fn view(&self) -> EngineView {
        EngineView {
            phase: self.phase,
            stream_open: self.stream_open,
            stream_params: match self.stream_params {
                Some(p) => Some((p.conversation_ids@, p.last_cursor)),
                None => None,
            },
            core_ready: self.core_ready,
        }
    }
}

// ---- Events ----------------------------------------------------------------

/// Whether the commands are one call.
pub open spec fn is_call(
    cmds: Seq<Command>,
    path: &'static str,
    request: RpcRequest,
    pending: Pending,
) -> bool {
    cmds == seq![Command::Call { path, request, pending }]
}

/// The request that carries a message.
pub open spec fn is_send_request(
    req: MessageStreamRequest,
    conversation_id: String,
    encrypted_payload: Vec<u8>,
    local_id: String,
) -> bool {
    &&& req.request == StreamPayload::Send(
        Envelope { conversation_id, encrypted_payload, message_id: local_id },
    )
    &&& req.request_id == local_id
    &&& req.attempt_id == Some(local_id)
}

/// The request that acknowledges a message.
pub open spec fn is_receipt_request(req: MessageStreamRequest, message_id: String, now: u64) -> bool {
    &&& req.request matches StreamPayload::Receipt { message_ids, status, timestamp }
        && message_ids@ == seq![message_id] && status == RECEIPT_STATUS_DELIVERED && timestamp
        == now as i64
    &&& req.request_id == message_id
    &&& req.attempt_id is None
}

/// What the engine does about an event at a time: its state afterwards and its commands.
pub open spec fn is_handled(
    pre: EngineView,
    transport: TransportView,
    event: UiEvent,
    now: u64,
    post: EngineView,
    cmds: Seq<Command>,
) -> bool {
    let config = transport.config;
    match event {
        UiEvent::Authenticate { device_id, challenge_response, .. } => {
            &&& post == pre
            &&& is_call(
                cmds,
                AUTH_AUTHENTICATE,
                RpcRequest::Authenticate {
                    device_id,
                    timestamp: now as i64,
                    signature: challenge_response,
                },
                Pending::Authenticate,
            )
        },
        UiEvent::RefreshToken { refresh_token } => {
            &&& post == pre
            &&& is_call(
                cmds,
                AUTH_REFRESH,
                RpcRequest::RefreshToken { refresh_token, device_id: config.my_device_id },
                Pending::RefreshToken,
            )
        },
        UiEvent::Logout => {
            &&& post == pre
            &&& cmds.len() == 1
            &&& cmds[0] matches Command::Call {
                path,
                request: RpcRequest::Logout { access_token, all_devices },
                pending: Pending::Logout,
            } && path == AUTH_LOGOUT && !all_devices && access_token@ == match config.auth_token {
                Some(t) => t@,
                None => Seq::<char>::empty(),
            }
        },
        UiEvent::FetchPreKeyBundle { user_id, device_id } => {
            &&& post == pre
            &&& is_call(
                cmds,
                KEY_GET_BUNDLE,
                RpcRequest::GetPreKeyBundle { user_id, device_id },
                Pending::FetchPreKeyBundle { user_id },
            )
        },
        UiEvent::UploadPreKeys { request_bytes, .. } => {
            &&& post == pre
            &&& is_call(
                cmds,
                KEY_UPLOAD,
                RpcRequest::Encoded(request_bytes),
                Pending::UploadPreKeys,
            )
        },
        UiEvent::UploadOtpks { device_id, count } => {
            &&& post == pre
            &&& cmds == if pre.core_ready {
                seq![Command::GenerateOtpks { device_id, count }]
            } else {
                Seq::empty()
            }
        },
        UiEvent::GetPreKeyCount { device_id } => {
            &&& post == pre
            &&& is_call(
                cmds,
                KEY_COUNT,
                RpcRequest::GetPreKeyCount { device_id },
                Pending::GetPreKeyCount { device_id },
            )
        },
        UiEvent::RotateSignedPreKey { device_id } => {
            &&& post == pre
            &&& cmds == if pre.core_ready {
                seq![Command::RotateSpk { device_id }]
            } else {
                Seq::empty()
            }
        },
        UiEvent::OpenMessageStream { conversation_ids, since_cursor } => {
            &&& post == (EngineView {
                stream_params: Some((conversation_ids@, since_cursor)),
                ..pre
            })
            &&& cmds == seq![Command::OpenStream { conversation_ids, since_cursor }]
        },
        UiEvent::CloseMessageStream => {
            &&& post == (EngineView { stream_open: false, ..pre })
            &&& cmds == seq![Command::DropStream]
        },
        UiEvent::SendMessage { encrypted_payload, local_id, conversation_id, .. } => {
            &&& post == pre
            &&& if pre.stream_open {
                &&& cmds.len() == 1
                &&& cmds[0] matches Command::SendFrame(req) && is_send_request(
                    req,
                    conversation_id,
                    encrypted_payload,
                    local_id,
                )
            } else {
                cmds.len() == 0
            }
        },
        UiEvent::AckMessage { message_id, .. } => {
            &&& post == pre
            &&& if pre.stream_open {
                &&& cmds.len() == 1
                &&& cmds[0] matches Command::SendFrame(req) && is_receipt_request(
                    req,
                    message_id,
                    now,
                )
            } else {
                cmds.len() == 0
            }
        },
        UiEvent::SearchUser { query } => {
            &&& post == pre
            &&& is_call(
                cmds,
                USER_FIND,
                RpcRequest::FindUser { username: query },
                Pending::SearchUser,
            )
        },
        UiEvent::RegisterPushToken { token, .. } => {
            &&& post == pre
            &&& is_call(
                cmds,
                NOTIFICATION_REGISTER,
                RpcRequest::RegisterDeviceToken {
                    device_token: token,
                    device_id: config.my_device_id,
                },
                Pending::RegisterPush,
            )
        },
        UiEvent::KeychainResult { key, data } => {
            &&& post == pre
            &&& cmds == match data {
                Some(keys) => if key@ == PRIVATE_KEYS@ {
                    seq![Command::BuildCore { keys, user_id: config.my_user_id }]
                } else {
                    Seq::empty()
                },
                None => Seq::empty(),
            }
        },
        UiEvent::RegisterDevice { username, device_id } => {
            &&& post == pre
            &&& cmds == if pre.core_ready {
                seq![Command::FetchChallenge { username, device_id }]
            } else {
                Seq::empty()
            }
        },
        UiEvent::InitSessionInitiator { contact_id } => {
            &&& post == pre
            &&& is_call(
                cmds,
                KEY_GET_BUNDLE,
                RpcRequest::GetPreKeyBundle { user_id: contact_id, device_id: None },
                Pending::InitSession { contact_id },
            )
        },
        UiEvent::PlatformReady
        | UiEvent::Signal { .. }
        | UiEvent::P2PHandoffInitiate { .. }
        | UiEvent::P2PHandoffAck { .. } => {
            &&& post == pre
            &&& cmds.len() == 0
        },
    }
}

/// A list with one command.
fn one(c: Command) -> (cmds: Vec<Command>)
    ensures
        cmds@ == seq![c],
{
    let mut cmds: Vec<Command> = Vec::new();
    cmds.push(c);
    assert(cmds@ =~= seq![c]);
    cmds
}

/// A list with two commands.
fn two(c1: Command, c2: Command) -> (cmds: Vec<Command>)
    ensures
        cmds@ == seq![c1, c2],
{
    let mut cmds: Vec<Command> = Vec::new();
    cmds.push(c1);
    cmds.push(c2);
    assert(cmds@ =~= seq![c1, c2]);
    cmds
}

impl ConstructEngine {
    /// What the engine does about an event at the given Unix time (seconds).
    pub fn handle_event_at(&mut self, transport: &Transport, event: UiEvent, now: u64) -> (cmds: Vec<
        Command,
    >)
        ensures
            is_handled(old(self)@, transport@, event, now, final(self)@, cmds@),
    {
        match event {
            UiEvent::Authenticate { device_id, challenge_response, .. } => one(
                Command::Call {
                    path: AUTH_AUTHENTICATE,
                    request: RpcRequest::Authenticate {
                        device_id,
                        timestamp: now as i64,
                        signature: challenge_response,
                    },
                    pending: Pending::Authenticate,
                },
            ),
            UiEvent::RefreshToken { refresh_token } => one(
                Command::Call {
                    path: AUTH_REFRESH,
                    request: RpcRequest::RefreshToken {
                        refresh_token,
                        device_id: transport.config().my_device_id.clone(),
                    },
                    pending: Pending::RefreshToken,
                },
            ),
            UiEvent::Logout => {
                let access_token = match &transport.config().auth_token {
                    Some(t) => t.clone(),
                    None => String::new(),
                };
                one(
                    Command::Call {
                        path: AUTH_LOGOUT,
                        request: RpcRequest::Logout { access_token, all_devices: false },
                        pending: Pending::Logout,
                    },
                )
            },
            UiEvent::FetchPreKeyBundle { user_id, device_id } => {
                let requested = user_id.clone();
                one(
                    Command::Call {
                        path: KEY_GET_BUNDLE,
                        request: RpcRequest::GetPreKeyBundle { user_id, device_id },
                        pending: Pending::FetchPreKeyBundle { user_id: requested },
                    },
                )
            },
            UiEvent::UploadPreKeys { request_bytes, .. } => one(
                Command::Call {
                    path: KEY_UPLOAD,
                    request: RpcRequest::Encoded(request_bytes),
                    pending: Pending::UploadPreKeys,
                },
            ),
            UiEvent::UploadOtpks { device_id, count } => if self.core_ready {
                one(Command::GenerateOtpks { device_id, count })
            } else {
                Vec::new()
            },
            UiEvent::GetPreKeyCount { device_id } => {
                let asked = device_id.clone();
                one(
                    Command::Call {
                        path: KEY_COUNT,
                        request: RpcRequest::GetPreKeyCount { device_id },
                        pending: Pending::GetPreKeyCount { device_id: asked },
                    },
                )
            },
            UiEvent::RotateSignedPreKey { device_id } => if self.core_ready {
                one(Command::RotateSpk { device_id })
            } else {
                Vec::new()
            },
            UiEvent::OpenMessageStream { conversation_ids, since_cursor } => {
                let last_cursor = match &since_cursor {
                    Some(c) => Some(c.clone()),
                    None => None,
                };
                self.stream_params = Some(
                    StreamParams {
                        conversation_ids: clone_texts(conversation_ids.as_slice()),
                        last_cursor,
                    },
                );
                one(Command::OpenStream { conversation_ids, since_cursor })
            },
            UiEvent::CloseMessageStream => {
                self.stream_open = false;
                one(Command::DropStream)
            },
            UiEvent::SendMessage { encrypted_payload, local_id, conversation_id, .. } => {
                if self.stream_open {
                    let request_id = local_id.clone();
                    let attempt_id = local_id.clone();
                    one(
                        Command::SendFrame(
                            MessageStreamRequest {
                                request: StreamPayload::Send(
                                    Envelope {
                                        conversation_id,
                                        encrypted_payload,
                                        message_id: local_id,
                                    },
                                ),
                                request_id,
                                attempt_id: Some(attempt_id),
                            },
                        ),
                    )
                } else {
                    Vec::new()
                }
            },
            UiEvent::AckMessage { message_id, .. } => {
                if self.stream_open {
                    let mut message_ids: Vec<String> = Vec::new();
                    message_ids.push(message_id.clone());
                    assert(message_ids@ =~= seq![message_id]);
                    one(
                        Command::SendFrame(
                            MessageStreamRequest {
                                request: StreamPayload::Receipt {
                                    message_ids,
                                    status: RECEIPT_STATUS_DELIVERED,
                                    timestamp: now as i64,
                                },
                                request_id: message_id,
                                attempt_id: None,
                            },
                        ),
                    )
                } else {
                    Vec::new()
                }
            },
            UiEvent::SearchUser { query } => one(
                Command::Call {
                    path: USER_FIND,
                    request: RpcRequest::FindUser { username: query },
                    pending: Pending::SearchUser,
                },
            ),
            UiEvent::RegisterPushToken { token, .. } => one(
                Command::Call {
                    path: NOTIFICATION_REGISTER,
                    request: RpcRequest::RegisterDeviceToken {
                        device_token: token,
                        device_id: transport.config().my_device_id.clone(),
                    },
                    pending: Pending::RegisterPush,
                },
            ),
            UiEvent::KeychainResult { key, data } => match data {
                Some(keys) => if same_text(key.as_str(), PRIVATE_KEYS) {
                    one(
                        Command::BuildCore { keys, user_id: transport.config().my_user_id.clone() },
                    )
                } else {
                    Vec::new()
                },
                None => Vec::new(),
            },
            UiEvent::RegisterDevice { username, device_id } => if self.core_ready {
                one(Command::FetchChallenge { username, device_id })
            } else {
                Vec::new()
            },
            UiEvent::InitSessionInitiator { contact_id } => {
                let user_id = contact_id.clone();
                one(
                    Command::Call {
                        path: KEY_GET_BUNDLE,
                        request: RpcRequest::GetPreKeyBundle { user_id, device_id: None },
                        pending: Pending::InitSession { contact_id },
                    },
                )
            },
            UiEvent::PlatformReady
            | UiEvent::Signal { .. }
            | UiEvent::P2PHandoffInitiate { .. }
            | UiEvent::P2PHandoffAck { .. } => Vec::new(),
        }
    }

    /// What the engine does about an event now.
    pub fn handle_event(&mut self, transport: &Transport, event: UiEvent) -> (cmds: Vec<Command>)
        ensures
            exists|now: u64| #[trigger]
                is_handled(old(self)@, transport@, event, now, final(self)@, cmds@),
    {
        let now = unix_secs();
        self.handle_event_at(transport, event, now)
    }
}

// ---- Replies ---------------------------------------------------------------

/// Whether a reply can be the outcome of a call.
pub open spec fn reply_fits(pending: Pending, reply: Reply) -> bool {
    match reply {
        Reply::Failed(_) => true,
        Reply::Undecodable(_) => match pending {
            Pending::Authenticate
            | Pending::RefreshToken
            | Pending::UploadOtpks { .. }
            | Pending::GetPreKeyCount { .. }
            | Pending::SearchUser
            | Pending::RegisterDevice { .. } => true,
            _ => false,
        },
        Reply::Raw(_) => match pending {
            Pending::Logout
            | Pending::FetchPreKeyBundle { .. }
            | Pending::UploadPreKeys
            | Pending::RotateSignedPreKey { .. }
            | Pending::RegisterPush
            | Pending::InitSession { .. } => true,
            _ => false,
        },
        Reply::Authenticated { .. } => pending is Authenticate,
        Reply::Refreshed { .. } => pending is RefreshToken,
        Reply::PreKeyCount { .. } => pending is GetPreKeyCount,
        Reply::OtpksStored { .. } => pending is UploadOtpks,
        Reply::UserFound { .. } => pending is SearchUser,
        Reply::Registered { .. } => pending is RegisterDevice,
    }
}

impl Reply {
    /// Whether the reply can be the outcome of a call.
    pub fn answers(&self, pending: &Pending) -> (b: bool)
        ensures
            b == reply_fits(*pending, *self),
    {
        match self {
            Reply::Failed(_) => true,
            Reply::Undecodable(_) => matches!(
                pending,
                Pending::Authenticate
                    | Pending::RefreshToken
                    | Pending::UploadOtpks { .. }
                    | Pending::GetPreKeyCount { .. }
                    | Pending::SearchUser
                    | Pending::RegisterDevice { .. }
            ),
            Reply::Raw(_) => matches!(
                pending,
                Pending::Logout
                    | Pending::FetchPreKeyBundle { .. }
                    | Pending::UploadPreKeys
                    | Pending::RotateSignedPreKey { .. }
                    | Pending::RegisterPush
                    | Pending::InitSession { .. }
            ),
            Reply::Authenticated { .. } => matches!(pending, Pending::Authenticate),
            Reply::Refreshed { .. } => matches!(pending, Pending::RefreshToken),
            Reply::PreKeyCount { .. } => matches!(pending, Pending::GetPreKeyCount { .. }),
            Reply::OtpksStored { .. } => matches!(pending, Pending::UploadOtpks { .. }),
            Reply::UserFound { .. } => matches!(pending, Pending::SearchUser),
            Reply::Registered { .. } => matches!(pending, Pending::RegisterDevice { .. }),
        }
    }
}

/// Whether a command hands new tokens to the platform.
pub open spec fn stores_tokens(
    cmd: Command,
    user_id: Seq<char>,
    access_token: String,
    refresh_token: Seq<char>,
    expires_at: i64,
) -> bool {
    cmd matches Command::Emit(
        PlatformAction::SetAuthToken {
            user_id: u,
            access_token: a,
            refresh_token: r,
            expires_at: t,
        },
    ) && u@ == user_id && a == access_token && r@ == refresh_token && t == expires_at
}

/// What the engine does about a reply that is not the hoped-for one: when the server rejected the
/// credentials, the platform forgets them.
pub open spec fn failure_commands(reply: Reply) -> Seq<Command> {
    match reply {
        Reply::Failed(EngineError::Unauthenticated { .. }) => seq![
            Command::Emit(PlatformAction::ClearAuth),
        ],
        _ => Seq::empty(),
    }
}

/// What the engine does about a reply that is not the hoped-for one.
fn answer_failure(reply: &Reply) -> (cmds: Vec<Command>)
    ensures
        cmds@ == failure_commands(*reply),
{
    match reply {
        Reply::Failed(EngineError::Unauthenticated { .. }) => one(
            Command::Emit(PlatformAction::ClearAuth),
        ),
        _ => Vec::new(),
    }
}

/// What the engine does about the outcome of a call: the transport afterwards and the commands.
pub open spec fn is_answered(
    engine: EngineView,
    pre: TransportView,
    pending: Pending,
    reply: Reply,
    post: TransportView,
    cmds: Seq<Command>,
) -> bool {
    match pending {
        Pending::Authenticate => match reply {
            Reply::Authenticated { tokens: Some(t) } => {
                &&& post == (TransportView { token: Some(t.access_token), ..pre })
                &&& cmds.len() == 1
                &&& stores_tokens(
                    cmds[0],
                    Seq::empty(),
                    t.access_token,
                    t.refresh_token@,
                    t.expires_at,
                )
            },
            _ => post == pre && cmds == failure_commands(reply),
        },
        Pending::RefreshToken => match reply {
            Reply::Refreshed { access_token, refresh_token, expires_at } => {
                &&& post == (TransportView { token: Some(access_token), ..pre })
                &&& cmds.len() == 1
                &&& stores_tokens(
                    cmds[0],
                    Seq::empty(),
                    access_token,
                    match refresh_token {
                        Some(t) => t@,
                        None => Seq::empty(),
                    },
                    expires_at,
                )
            },
            _ => post == pre && cmds == failure_commands(reply),
        },
        Pending::Logout => {
            &&& post == (TransportView { token: None, ..pre })
            &&& cmds == seq![Command::Emit(PlatformAction::ClearAuth)]
        },
        Pending::FetchPreKeyBundle { user_id } => {
            &&& post == pre
            &&& cmds == match reply {
                Reply::Raw(bundle_bytes) => seq![
                    Command::Emit(PlatformAction::PreKeyBundleReady { user_id, bundle_bytes }),
                ],
                _ => failure_commands(reply),
            }
        },
        Pending::UploadOtpks { count } => {
            &&& post == pre
            &&& cmds == match reply {
                Reply::OtpksStored { server_count } => seq![
                    Command::Emit(PlatformAction::OtpksUploaded { uploaded: count, server_count }),
                ],
                _ => failure_commands(reply),
            }
        },
        Pending::GetPreKeyCount { device_id } => {
            &&& post == pre
            &&& cmds == match reply {
                Reply::PreKeyCount { count, recommended_minimum } => {
                    let update = Command::Emit(
                        PlatformAction::PreKeyCountUpdated { count, recommended_minimum },
                    );
                    if count < recommended_minimum && engine.core_ready {
                        seq![
                            update,
                            Command::GenerateOtpks {
                                device_id,
                                count: (recommended_minimum - count) as u32,
                            },
                        ]
                    } else {
                        seq![update]
                    }
                },
                _ => failure_commands(reply),
            }
        },
        Pending::RotateSignedPreKey { key_id } => {
            &&& post == pre
            &&& cmds == match reply {
                Reply::Raw(_) => seq![Command::Emit(PlatformAction::SpkRotated { key_id })],
                _ => failure_commands(reply),
            }
        },
        Pending::RegisterDevice { device_id } => match reply {
            Reply::Registered { user_id, tokens } => {
                &&& post == (TransportView { token: Some(tokens.access_token), ..pre })
                &&& cmds.len() == 2
                &&& stores_tokens(
                    cmds[0],
                    user_id@,
                    tokens.access_token,
                    tokens.refresh_token@,
                    tokens.expires_at,
                )
                &&& cmds[1] == Command::Emit(
                    PlatformAction::RegistrationComplete { user_id, device_id },
                )
            },
            _ => post == pre && cmds == failure_commands(reply),
        },
        Pending::InitSession { contact_id } => {
            &&& post == pre
            &&& match reply {
                Reply::Raw(bundle_bytes) => cmds == seq![
                    Command::InitSession { contact_id, bundle_bytes },
                ],
                Reply::Failed(e) => {
                    &&& cmds.len() == failure_commands(reply).len() + 1
                    &&& cmds.drop_last() == failure_commands(reply)
                    &&& cmds.last() matches Command::Emit(
                        PlatformAction::SessionError { contact_id: c, message },
                    ) && c == contact_id && message@ == e.text()
                },
                _ => cmds.len() == 0,
            }
        },
        Pending::UploadPreKeys | Pending::SearchUser | Pending::RegisterPush => {
            &&& post == pre
            &&& cmds == failure_commands(reply)
        },
    }
}

impl ConstructEngine {
    /// What the engine does about the outcome of a call.
    pub fn handle_reply(&self, transport: &mut Transport, pending: Pending, reply: Reply) -> (cmds:
        Vec<Command>)
        requires
            reply_fits(pending, reply),
        ensures
            is_answered(self@, old(transport)@, pending, reply, final(transport)@, cmds@),
    {
        match pending {
            Pending::Authenticate => match reply {
                Reply::Authenticated { tokens: Some(t) } => {
                    transport.set_token(t.access_token.clone());
                    one(
                        Command::Emit(
                            PlatformAction::SetAuthToken {
                                user_id: String::new(),
                                access_token: t.access_token,
                                refresh_token: t.refresh_token,
                                expires_at: t.expires_at,
                            },
                        ),
                    )
                },
                other => answer_failure(&other),
            },
            Pending::RefreshToken => match reply {
                Reply::Refreshed { access_token, refresh_token, expires_at } => {
                    transport.set_token(access_token.clone());
                    let refresh_token = match refresh_token {
                        Some(t) => t,
                        None => String::new(),
                    };
                    one(
                        Command::Emit(
                            PlatformAction::SetAuthToken {
                                user_id: String::new(),
                                access_token,
                                refresh_token,
                                expires_at,
                            },
                        ),
                    )
                },
                other => answer_failure(&other),
            },
            Pending::Logout => {
                transport.clear_token();
                one(Command::Emit(PlatformAction::ClearAuth))
            },
            Pending::FetchPreKeyBundle { user_id } => match reply {
                Reply::Raw(bundle_bytes) => one(
                    Command::Emit(PlatformAction::PreKeyBundleReady { user_id, bundle_bytes }),
                ),
                other => answer_failure(&other),
            },
            Pending::UploadOtpks { count } => match reply {
                Reply::OtpksStored { server_count } => one(
                    Command::Emit(PlatformAction::OtpksUploaded { uploaded: count, server_count }),
                ),
                other => answer_failure(&other),
            },
            Pending::GetPreKeyCount { device_id } => match reply {
                Reply::PreKeyCount { count, recommended_minimum } => {
                    let update = Command::Emit(
                        PlatformAction::PreKeyCountUpdated { count, recommended_minimum },
                    );
                    if count < recommended_minimum && self.core_ready {
                        two(
                            update,
                            Command::GenerateOtpks {
                                device_id,
                                count: recommended_minimum - count,
                            },
                        )
                    } else {
                        one(update)
                    }
                },
                other => answer_failure(&other),
            },
            Pending::RotateSignedPreKey { key_id } => match reply {
                Reply::Raw(_) => one(Command::Emit(PlatformAction::SpkRotated { key_id })),
                other => answer_failure(&other),
            },
            Pending::RegisterDevice { device_id } => match reply {
                Reply::Registered { user_id, tokens } => {
                    transport.set_token(tokens.access_token.clone());
                    two(
                        Command::Emit(
                            PlatformAction::SetAuthToken {
                                user_id: user_id.clone(),
                                access_token: tokens.access_token,
                                refresh_token: tokens.refresh_token,
                                expires_at: tokens.expires_at,
                            },
                        ),
                        Command::Emit(PlatformAction::RegistrationComplete { user_id, device_id }),
                    )
                },
                other => answer_failure(&other),
            },
            Pending::InitSession { contact_id } => match reply {
                Reply::Raw(bundle_bytes) => one(Command::InitSession { contact_id, bundle_bytes }),
                Reply::Failed(e) => {
                    let message = e.display_text();
                    let failed = Reply::Failed(e);
                    let mut cmds = answer_failure(&failed);
                    let ghost before = cmds@;
                    cmds.push(
                        Command::Emit(PlatformAction::SessionError { contact_id, message }),
                    );
                    assert(cmds@.drop_last() =~= before);
                    cmds
                },
                _ => Vec::new(),
            },
            Pending::UploadPreKeys | Pending::SearchUser | Pending::RegisterPush => answer_failure(
                &reply,
            ),
        }
    }
}

/// Rejected credentials make the platform forget them: after an unauthenticated reply to any
/// call, and after every logout whatever the server says, the first command is to clear the auth
/// state.
pub proof fn law_rejected_credentials_are_cleared(
    engine: EngineView,
    pre: TransportView,
    pending: Pending,
    reply: Reply,
    post: TransportView,
    cmds: Seq<Command>,
)
    requires
        is_answered(engine, pre, pending, reply, post, cmds),
        pending is Logout || reply matches Reply::Failed(EngineError::Unauthenticated { .. }),
    ensures
        cmds.len() >= 1,
        cmds[0] == Command::Emit(PlatformAction::ClearAuth),
        pending is Logout ==> post.token is None,
{
    if pending is InitSession {
        assert(cmds.drop_last()[0] == cmds[0]);
    }
}

/// The token that calls carry is the one that the platform was told to store: whenever a reply
/// makes the engine hand over an access token, that is the transport's token from then on.
pub proof fn law_stored_token_is_used(
    engine: EngineView,
    pre: TransportView,
    pending: Pending,
    reply: Reply,
    post: TransportView,
    cmds: Seq<Command>,
    i: int,
)
    requires
        is_answered(engine, pre, pending, reply, post, cmds),
        0 <= i < cmds.len(),
        cmds[i] matches Command::Emit(PlatformAction::SetAuthToken { .. }),
    ensures
        cmds[i] matches Command::Emit(PlatformAction::SetAuthToken { access_token, .. })
            && post.token == Some(access_token),
{
    if pending is InitSession && i < cmds.len() - 1 {
        assert(cmds.drop_last()[i] == cmds[i]);
    }
}

// ---- The crypto core -------------------------------------------------------

/// What the engine does about the core's work. The core's new state is persisted before the
/// server is called.
pub open spec fn is_core_answered(result: CoreResult, cmds: Seq<Command>) -> bool {
    match result {
        CoreResult::OtpksGenerated { count, request_bytes, state } => {
            &&& cmds.len() == 2
            &&& cmds[0] matches Command::Emit(PlatformAction::SaveKeychain { key, data }) && key@
                == PRIVATE_KEYS@ && data == state
            &&& cmds[1] == Command::Call {
                path: KEY_UPLOAD,
                request: RpcRequest::Encoded(request_bytes),
                pending: Pending::UploadOtpks { count },
            }
        },
        CoreResult::SpkRotated { key_id, request_bytes, state } => {
            &&& cmds.len() == 2
            &&& cmds[0] matches Command::Emit(PlatformAction::SaveKeychain { key, data }) && key@
                == PRIVATE_KEYS@ && data == state
            &&& cmds[1] == Command::Call {
                path: KEY_ROTATE_SPK,
                request: RpcRequest::Encoded(request_bytes),
                pending: Pending::RotateSignedPreKey { key_id },
            }
        },
        CoreResult::ChallengeSolved { device_id, request_bytes } => is_call(
            cmds,
            AUTH_REGISTER,
            RpcRequest::Encoded(request_bytes),
            Pending::RegisterDevice { device_id },
        ),
        CoreResult::SessionInitiated { contact_id, wire_payload } => cmds == seq![
            Command::Emit(PlatformAction::SessionInitiatorReady { contact_id, wire_payload }),
        ],
        CoreResult::SessionFailed { contact_id, message } => cmds == seq![
            Command::Emit(PlatformAction::SessionError { contact_id, message }),
        ],
        CoreResult::Failed(_) => cmds.len() == 0,
        CoreResult::CallFailed(e) => cmds == failure_commands(Reply::Failed(e)),
    }
}

impl ConstructEngine {
    /// What the engine does about the core's work.
    pub fn handle_core_result(&self, result: CoreResult) -> (cmds: Vec<Command>)
        ensures
            is_core_answered(result, cmds@),
    {
        match result {
            CoreResult::OtpksGenerated { count, request_bytes, state } => two(
                Command::Emit(
                    PlatformAction::SaveKeychain {
                        key: String::from_str(PRIVATE_KEYS),
                        data: state,
                    },
                ),
                Command::Call {
                    path: KEY_UPLOAD,
                    request: RpcRequest::Encoded(request_bytes),
                    pending: Pending::UploadOtpks { count },
                },
            ),
            CoreResult::SpkRotated { key_id, request_bytes, state } => two(
                Command::Emit(
                    PlatformAction::SaveKeychain {
                        key: String::from_str(PRIVATE_KEYS),
                        data: state,
                    },
                ),
                Command::Call {
                    path: KEY_ROTATE_SPK,
                    request: RpcRequest::Encoded(request_bytes),
                    pending: Pending::RotateSignedPreKey { key_id },
                },
            ),
            CoreResult::ChallengeSolved { device_id, request_bytes } => one(
                Command::Call {
                    path: AUTH_REGISTER,
                    request: RpcRequest::Encoded(request_bytes),
                    pending: Pending::RegisterDevice { device_id },
                },
            ),
            CoreResult::SessionInitiated { contact_id, wire_payload } => one(
                Command::Emit(PlatformAction::SessionInitiatorReady { contact_id, wire_payload }),
            ),
            CoreResult::SessionFailed { contact_id, message } => one(
                Command::Emit(PlatformAction::SessionError { contact_id, message }),
            ),
            CoreResult::Failed(_) => Vec::new(),
            CoreResult::CallFailed(e) => answer_failure(&Reply::Failed(e)),
        }
    }

    /// Takes a core that was built from a key blob: `true` when there is one now, `false` when
    /// the blob was empty. A failure leaves the engine as it was.
    pub fn init_core_from_keys(&mut self, built: Result<bool, EngineError>) -> (r: Result<
        (),
        EngineError,
    >)
        ensures
            match built {
                Ok(ready) => {
                    &&& r is Ok
                    &&& final(self)@ == (EngineView { core_ready: ready, ..old(self)@ })
                },
                Err(e) => {
                    &&& r == Err::<(), EngineError>(e)
                    &&& final(self)@ == old(self)@
                },
            },
    {
        match built {
            Ok(ready) => {
                self.core_ready = ready;
                Ok(())
            },
            Err(e) => Err(e),
        }
    }

    /// Whether there is a crypto core.
    pub fn core_ready(&self) -> (b: bool)
        ensures
            b == self@.core_ready,
    {
        self.core_ready
    }
}

// ---- The message stream ----------------------------------------------------

/// The command that opens the message stream again.
fn open_again(params: &StreamParams) -> (cmd: Command)
    ensures
        cmd matches Command::OpenStream { conversation_ids, since_cursor } && conversation_ids@
            == params.conversation_ids@ && since_cursor == params.last_cursor,
{
    let since_cursor = match &params.last_cursor {
        Some(c) => Some(c.clone()),
        None => None,
    };
    Command::OpenStream {
        conversation_ids: clone_texts(params.conversation_ids.as_slice()),
        since_cursor,
    }
}

/// What the engine does about the end of the message stream. An end that the engine asked for,
/// or that comes when no stream is held open, is no failure.
pub open spec fn is_stream_end(
    pre: EngineView,
    failure: Option<String>,
    post: EngineView,
    cmds: Seq<Command>,
) -> bool {
    match failure {
        Some(message) => if pre.stream_open {
            &&& post == (EngineView { stream_open: false, ..pre })
            &&& cmds.len() >= 2
            &&& cmds[0] == Command::Emit(PlatformAction::StreamError { message })
            &&& cmds[1] == Command::DropStream
            &&& match pre.stream_params {
                Some((ids, cursor)) => {
                    &&& cmds.len() == 3
                    &&& cmds[2] matches Command::OpenStream { conversation_ids, since_cursor }
                        && conversation_ids@ == ids && since_cursor == cursor
                },
                None => cmds.len() == 2,
            }
        } else {
            &&& post == pre
            &&& cmds.len() == 0
        },
        None => {
            &&& post == pre
            &&& cmds.len() == 0
        },
    }
}

impl ConstructEngine {
    /// Takes the outcome of opening the message stream: what to tell the platform.
    pub fn stream_result(&mut self, outcome: Result<(), EngineError>) -> (action: PlatformAction)
        ensures
            match outcome {
                Ok(_) => {
                    &&& action == (PlatformAction::StreamReady { stream_cursor: None })
                    &&& final(self)@ == (EngineView { stream_open: true, ..old(self)@ })
                },
                Err(e) => {
                    &&& action matches PlatformAction::StreamError { message } && message@
                        == e.text()
                    &&& final(self)@ == old(self)@
                },
            },
    {
        match outcome {
            Ok(_) => {
                self.stream_open = true;
                PlatformAction::StreamReady { stream_cursor: None }
            },
            Err(e) => PlatformAction::StreamError { message: e.display_text() },
        }
    }

    /// Takes the end of the message stream: when it was unexpected, the platform is told why and
    /// the stream is opened again with the same subscription.
    pub fn stream_ended(&mut self, failure: Option<String>) -> (cmds: Vec<Command>)
        requires
            old(self).well_formed(),
        ensures
            final(self).well_formed(),
            is_stream_end(old(self)@, failure, final(self)@, cmds@),
    {
        match failure {
            Some(message) => {
                if self.stream_open {
                    self.stream_open = false;
                    let mut cmds = two(
                        Command::Emit(PlatformAction::StreamError { message }),
                        Command::DropStream,
                    );
                    match &self.stream_params {
                        Some(params) => {
                            cmds.push(open_again(params));
                        },
                        None => {},
                    }
                    cmds
                } else {
                    Vec::new()
                }
            },
            None => Vec::new(),
        }
    }

    /// Whether a message stream is open.
    pub fn stream_open(&self) -> (b: bool)
        ensures
            b == self@.stream_open,
    {
        self.stream_open
    }

    /// What to tell the platform about a frame that arrived on the message stream: the whole
    /// frame is to be saved.
    pub fn incoming_frame(frame: &Bytes) -> (action: PlatformAction)
        ensures
            action matches PlatformAction::SaveMessage {
                envelope_bytes,
                sender_id,
                conversation_id,
                timestamp,
            } && envelope_bytes@ == bytes_content(*frame) && sender_id@ == Seq::<char>::empty()
                && conversation_id@ == Seq::<char>::empty() && timestamp == 0,
    {
        PlatformAction::SaveMessage {
            envelope_bytes: slice_to_vec(as_slice(frame)),
            sender_id: String::new(),
            conversation_id: String::new(),
            timestamp: 0,
        }
    }
}

// ---- Lifecycle and connection ----------------------------------------------

/// What can go wrong when the engine's thread is started.
#[derive(Debug, Clone, Copy, PartialEq, Eq, Structural)]
pub enum StartStep {
    /// The asynchronous runtime is being built.
    Runtime,
    /// The thread is being spawned.
    Thread,
}

/// The error of a failed start.
pub fn start_failure(step: StartStep, cause: &str) -> (e: EngineError)
    ensures
        e matches EngineError::Internal { message } && message@ == match step {
            StartStep::Runtime => "tokio runtime: "@,
            StartStep::Thread => "thread spawn: "@,
        } + cause@,
{
    let prefix = match step {
        StartStep::Runtime => "tokio runtime: ",
        StartStep::Thread => "thread spawn: ",
    };
    EngineError::internal(String::from_str(prefix).concat(cause).as_str())
}

/// What happens to the connection.
pub enum LinkEvent {
    /// The connection attempt succeeded.
    Connected,
    /// The connection attempt failed at a step, with this description.
    ConnectFailed(ConnectStep, String),
    /// The wait is over.
    Slept,
    /// The connection was lost.
    Lost,
    /// No more events will come.
    Closed,
}

/// The wait after the next failed attempt: twice as long, but no longer than the maximum.
pub open spec fn next_delay(delay: u64) -> u64 {
    if delay * 2 < MAX_DELAY_SECS {
        (delay * 2) as u64
    } else {
        MAX_DELAY_SECS
    }
}

/// Whether an event can happen in a phase.
pub open spec fn link_event_fits(phase: LoopPhase, event: LinkEvent) -> bool {
    match event {
        LinkEvent::Connected | LinkEvent::ConnectFailed(_, _) => phase is Connecting,
        LinkEvent::Slept => phase is Waiting,
        LinkEvent::Lost | LinkEvent::Closed => phase is Serving,
    }
}

/// What the engine does about what happens to the connection.
pub open spec fn is_link_step(
    pre: EngineView,
    tpre: TransportView,
    event: LinkEvent,
    post: EngineView,
    tpost: TransportView,
    cmds: Seq<Command>,
) -> bool {
    match event {
        LinkEvent::Connected => {
            let reopen = match pre.phase {
                LoopPhase::Connecting { reopen, .. } => reopen,
                _ => false,
            };
            let up = Command::Emit(PlatformAction::ConnectionStateChanged { connected: true });
            &&& tpost == (TransportView { connected: true, ..tpre })
            &&& post == (EngineView { phase: LoopPhase::Serving, ..pre })
            &&& match pre.stream_params {
                Some((ids, cursor)) => if reopen {
                    &&& cmds.len() == 2
                    &&& cmds[0] == up
                    &&& cmds[1] matches Command::OpenStream { conversation_ids, since_cursor }
                        && conversation_ids@ == ids && since_cursor == cursor
                } else {
                    cmds == seq![up]
                },
                None => cmds == seq![up],
            }
        },
        LinkEvent::ConnectFailed(step, cause) => {
            &&& tpost == tpre
            &&& pre.phase matches LoopPhase::Connecting { delay, reopen } && {
                &&& post == (EngineView {
                    phase: LoopPhase::Waiting { delay: next_delay(delay), reopen },
                    ..pre
                })
                &&& cmds.len() == 2
                &&& cmds[0] matches Command::Emit(PlatformAction::NetworkError { message })
                    && message@ == "Reconnecting in "@ + decimal(delay as nat) + "s… ("@
                    + ("Transport error: "@ + connect_failure_text(step, cause@)) + ")"@
                &&& cmds[1] == Command::Sleep(delay)
            }
        },
        LinkEvent::Slept => {
            &&& tpost == tpre
            &&& pre.phase matches LoopPhase::Waiting { delay, reopen } && {
                &&& post == (EngineView { phase: LoopPhase::Connecting { delay, reopen }, ..pre })
                &&& cmds == seq![Command::Connect]
            }
        },
        LinkEvent::Lost => {
            &&& tpost == tpre
            &&& post == (EngineView {
                phase: LoopPhase::Connecting { delay: 1, reopen: true },
                stream_open: false,
                ..pre
            })
            &&& cmds == seq![
                Command::Emit(PlatformAction::ConnectionStateChanged { connected: false }),
                Command::DropStream,
                Command::Connect,
            ]
        },
        LinkEvent::Closed => {
            &&& tpost == tpre
            &&& post == (EngineView { phase: LoopPhase::Stopped, ..pre })
            &&& cmds == seq![Command::Stop]
        },
    }
}

impl ConstructEngine {
    /// Whether the wait between connection attempts is within its bounds.
    pub open spec fn well_formed(&self) -> bool {
        match self@.phase {
            LoopPhase::Connecting { delay, .. } | LoopPhase::Waiting { delay, .. } => 1 <= delay
                <= MAX_DELAY_SECS,
            _ => true,
        }
    }

    /// An engine that was not started, with the core that was built from the configured keys.
    pub fn new(built: Result<bool, EngineError>) -> (r: Result<Self, EngineError>)
        ensures
            match built {
                Ok(ready) => r matches Ok(engine) && engine.well_formed() && engine@ == (
                EngineView {
                    phase: LoopPhase::Created,
                    stream_open: false,
                    stream_params: None,
                    core_ready: ready,
                }),
                Err(e) => r == Err::<Self, EngineError>(e),
            },
    {
        match built {
            Ok(ready) => Ok(
                ConstructEngine {
                    phase: LoopPhase::Created,
                    stream_open: false,
                    stream_params: None,
                    core_ready: ready,
                },
            ),
            Err(e) => Err(e),
        }
    }

    /// Where the event loop is.
    pub fn phase(&self) -> (phase: LoopPhase)
        ensures
            phase == self@.phase,
    {
        self.phase
    }

    /// Starts the engine, which can be done once.
    pub fn start(&mut self) -> (r: Result<(), EngineError>)
        requires
            old(self).well_formed(),
        ensures
            final(self).well_formed(),
            if old(self)@.phase == LoopPhase::Created {
                &&& r is Ok
                &&& final(self)@ == (EngineView { phase: LoopPhase::Starting, ..old(self)@ })
            } else {
                &&& r matches Err(EngineError::AlreadyRunning)
                &&& final(self)@ == old(self)@
            },
    {
        match self.phase {
            LoopPhase::Created => {
                self.phase = LoopPhase::Starting;
                Ok(())
            },
            _ => Err(EngineError::AlreadyRunning),
        }
    }

    /// Takes the outcome of setting up the transport: connects, or gives up.
    pub fn transport_result(&mut self, outcome: Result<(), EngineError>) -> (cmds: Vec<Command>)
        requires
            old(self)@.phase == LoopPhase::Starting,
        ensures
            final(self).well_formed(),
            match outcome {
                Ok(_) => {
                    &&& final(self)@ == (EngineView {
                        phase: LoopPhase::Connecting { delay: 1, reopen: false },
                        ..old(self)@
                    })
                    &&& cmds@ == seq![Command::Connect]
                },
                Err(e) => {
                    &&& final(self)@ == (EngineView { phase: LoopPhase::Stopped, ..old(self)@ })
                    &&& cmds@.len() == 2
                    &&& cmds@[0] matches Command::Emit(PlatformAction::NetworkError { message })
                        && message@ == "Transport init failed: "@ + e.text()
                    &&& cmds@[1] == Command::Stop
                },
            },
    {
        match outcome {
            Ok(_) => {
                self.phase = LoopPhase::Connecting { delay: 1, reopen: false };
                one(Command::Connect)
            },
            Err(e) => {
                self.phase = LoopPhase::Stopped;
                let message = String::from_str("Transport init failed: ").concat(
                    e.display_text().as_str(),
                );
                two(Command::Emit(PlatformAction::NetworkError { message }), Command::Stop)
            },
        }
    }

    /// What the engine does about what happens to the connection.
    pub fn on_link_event(&mut self, transport: &mut Transport, event: LinkEvent) -> (cmds: Vec<
        Command,
    >)
        requires
            old(self).well_formed(),
            link_event_fits(old(self)@.phase, event),
        ensures
            final(self).well_formed(),
            is_link_step(
                old(self)@,
                old(transport)@,
                event,
                final(self)@,
                final(transport)@,
                cmds@,
            ),
    {
        match event {
            LinkEvent::Connected => {
                let _ = transport.connect_h3(Ok(()));
                let reopen = match self.phase {
                    LoopPhase::Connecting { reopen, .. } => reopen,
                    _ => false,
                };
                self.phase = LoopPhase::Serving;
                let mut cmds = one(
                    Command::Emit(PlatformAction::ConnectionStateChanged { connected: true }),
                );
                if reopen {
                    match &self.stream_params {
                        Some(params) => {
                            cmds.push(open_again(params));
                        },
                        None => {},
                    }
                }
                cmds
            },
            LinkEvent::ConnectFailed(step, cause) => {
                let (delay, reopen) = match self.phase {
                    LoopPhase::Connecting { delay, reopen } => (delay, reopen),
                    _ => (1, false),
                };
                let reason = match transport.connect_h3(Err((step, cause))) {
                    Ok(_) => String::new(),
                    Err(e) => e.display_text(),
                };
                let message = String::from_str("Reconnecting in ").concat(
                    decimal_text(delay).as_str(),
                ).concat("s… (").concat(reason.as_str()).concat(")");
                let next = if delay * 2 < MAX_DELAY_SECS {
                    delay * 2
                } else {
                    MAX_DELAY_SECS
                };
                self.phase = LoopPhase::Waiting { delay: next, reopen };
                two(Command::Emit(PlatformAction::NetworkError { message }), Command::Sleep(delay))
            },
            LinkEvent::Slept => {
                let (delay, reopen) = match self.phase {
                    LoopPhase::Waiting { delay, reopen } => (delay, reopen),
                    _ => (1, false),
                };
                self.phase = LoopPhase::Connecting { delay, reopen };
                one(Command::Connect)
            },
            LinkEvent::Lost => {
                self.phase = LoopPhase::Connecting { delay: 1, reopen: true };
                self.stream_open = false;
                let down = Command::Emit(
                    PlatformAction::ConnectionStateChanged { connected: false },
                );
                let mut cmds = two(down, Command::DropStream);
                cmds.push(Command::Connect);
                assert(cmds@ =~= seq![down, Command::DropStream, Command::Connect]);
                cmds
            },
            LinkEvent::Closed => {
                self.phase = LoopPhase::Stopped;
                one(Command::Stop)
            },
        }
    }
}

// ---- Reconnecting ----------------------------------------------------------

/// The wait after `n` failed attempts in a row, in seconds.
pub open spec fn nth_delay(n: nat) -> u64
    decreases n,
{
    if n == 0 {
        1
    } else {
        next_delay(nth_delay((n - 1) as nat))
    }
}

/// The waits double from one second up to a minute: after `n` failed attempts in a row the
/// wait is `2^n` seconds or sixty, whichever is less.
pub proof fn law_backoff_doubles(n: nat)
    ensures
        nth_delay(n) == if pow2(n) < 60 {
            pow2(n) as int
        } else {
            60
        },
    decreases n,
{
    if n == 0 {
        lemma2_to64();
    } else {
        law_backoff_doubles((n - 1) as nat);
        lemma_pow2_unfold(n);
    }
}

/// Whether the engine went through these states as these things happened to the connection,
/// answering each with commands.
pub open spec fn is_link_run(
    states: Seq<EngineView>,
    transports: Seq<TransportView>,
    events: Seq<LinkEvent>,
    commands: Seq<Seq<Command>>,
) -> bool {
    &&& states.len() == events.len() + 1
    &&& transports.len() == events.len() + 1
    &&& commands.len() == events.len()
    &&& forall|i: int| #![trigger events[i]]
        0 <= i < events.len() ==> link_event_fits(states[i].phase, events[i]) && is_link_step(
            states[i],
            transports[i],
            events[i],
            states[i + 1],
            transports[i + 1],
            commands[i],
        )
}

/// Whether a run is an outage: the connection is lost, and attempts to restore it fail.
pub open spec fn is_outage(events: Seq<LinkEvent>) -> bool {
    &&& events.len() >= 1
    &&& events[0] is Lost
    &&& forall|i: int| #![trigger events[i]]
        1 <= i < events.len() ==> events[i] is ConnectFailed || events[i] is Slept
}

/// Attempts and waits alternate during an outage; the subscription is kept throughout.
proof fn lemma_outage(
    states: Seq<EngineView>,
    transports: Seq<TransportView>,
    events: Seq<LinkEvent>,
    commands: Seq<Seq<Command>>,
    n: int,
)
    requires
        is_link_run(states, transports, events, commands),
        1 <= n <= events.len(),
        is_outage(events.take(n)),
    ensures
        states[n].stream_params == states[0].stream_params,
        !states[n].stream_open,
        states[n].phase == if (n - 1) % 2 == 0 {
            LoopPhase::Connecting { delay: nth_delay(((n - 1) / 2) as nat), reopen: true }
        } else {
            LoopPhase::Waiting { delay: nth_delay(((n + 1) / 2) as nat), reopen: true }
        },
    decreases n,
{
    let part = events.take(n);
    assert(part[n - 1] == events[n - 1]);
    if n > 1 {
        let shorter = events.take(n - 1);
        assert(shorter[0] == part[0]);
        assert forall|i: int| #![trigger shorter[i]] 1 <= i < shorter.len() implies shorter[i]
            is ConnectFailed || shorter[i] is Slept by {
            assert(shorter[i] == part[i]);
        }
        lemma_outage(states, transports, events, commands, n - 1);
        let ev = events[n - 1];
        assert(link_event_fits(states[n - 1].phase, ev));
        assert(part[n - 1] is ConnectFailed || part[n - 1] is Slept);
    } else {
        assert(part[0] is Lost);
        let ev = events[0];
        assert(is_link_step(
            states[0],
            transports[0],
            ev,
            states[1],
            transports[1],
            commands[0],
        ));
    }
}

/// During an outage every failed attempt is reported, and the waits double: the `k`-th failed
/// attempt is followed by a wait of `nth_delay(k)` seconds, counting from zero.
pub proof fn law_outage_backs_off(
    states: Seq<EngineView>,
    transports: Seq<TransportView>,
    events: Seq<LinkEvent>,
    commands: Seq<Seq<Command>>,
    k: nat,
)
    requires
        is_link_run(states, transports, events, commands),
        is_outage(events),
        1 + 2 * k < events.len(),
    ensures
        events[1 + 2 * k as int] is ConnectFailed,
        commands[1 + 2 * k as int].len() == 2,
        commands[1 + 2 * k as int][0] matches Command::Emit(PlatformAction::NetworkError { .. }),
        commands[1 + 2 * k as int][1] == Command::Sleep(nth_delay(k)),
{
    let n = 1 + 2 * k as int;
    let part = events.take(n);
    assert(part[0] == events[0]);
    assert forall|i: int| #![trigger part[i]] 1 <= i < part.len() implies part[i] is ConnectFailed
        || part[i] is Slept by {
        assert(part[i] == events[i]);
    }
    lemma_outage(states, transports, events, commands, n);
    assert((n - 1) / 2 == k);
    let ev = events[n];
    assert(link_event_fits(states[n].phase, ev));
}

/// After an outage of any length the engine tells the platform that the connection is back and
/// opens the message stream again with the subscription that it had, if it had one.
pub proof fn law_reconnect_resubscribes(
    states: Seq<EngineView>,
    transports: Seq<TransportView>,
    events: Seq<LinkEvent>,
    commands: Seq<Seq<Command>>,
)
    requires
        is_link_run(states, transports, events, commands),
        events.len() >= 2,
        is_outage(events.drop_last()),
        events.last() is Connected,
    ensures
        commands.last().len() >= 1,
        commands.last()[0] == Command::Emit(
            PlatformAction::ConnectionStateChanged { connected: true },
        ),
        match states[0].stream_params {
            Some((ids, cursor)) => {
                &&& commands.last().len() == 2
                &&& commands.last()[1] matches Command::OpenStream { conversation_ids, since_cursor }
                    && conversation_ids@ == ids && since_cursor == cursor
            },
            None => commands.last().len() == 1,
        },
        states.last().phase == LoopPhase::Serving,
        transports.last().connected,
{
    let n = events.len() - 1;
    assert(events.drop_last() =~= events.take(n));
    lemma_outage(states, transports, events, commands, n);
    let ev = events[n];
    assert(link_event_fits(states[n].phase, ev));
    assert(is_link_step(
        states[n],
        transports[n],
        ev,
        states[n + 1],
        transports[n + 1],
        commands[n],
    ));
}

} // verus!
