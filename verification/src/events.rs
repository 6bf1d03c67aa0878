//! Events that the platform sends to the engine, and actions that the engine asks of it.

use vstd::prelude::*;

use crate::p2p::ice::ICECandidate;

verus! {

/// A user or system action, dispatched from the platform to the engine.
#[allow(inconsistent_fields)]
#[derive(Debug)]
pub enum UiEvent {
    /// Register a new device. The engine fetches a proof-of-work challenge, has it solved and
    /// registers. The crypto core must already be initialised.
    RegisterDevice {
        /// Display name of the new identity, if one was chosen.
        username: Option<String>,
        /// Device id derived from the signing key.
        device_id: String,
    },
    /// Authenticate an existing device.
    Authenticate { device_id: String, challenge_response: Vec<u8>, signing_key: Vec<u8> },
    /// Refresh the access token.
    RefreshToken { refresh_token: String },
    /// Log out and revoke the tokens on the server.
    Logout,
    /// Fetch the pre-key bundle of a contact.
    FetchPreKeyBundle { user_id: String, device_id: Option<String> },
    /// Upload pre-keys that are already serialised.
    UploadPreKeys { device_id: String, request_bytes: Vec<u8> },
    /// Generate one-time pre-keys and upload them.
    UploadOtpks { device_id: String, count: u32 },
    /// Ask how many one-time pre-keys the server has left; uploads more when there are too few.
    GetPreKeyCount { device_id: String },
    /// Rotate the signed pre-key.
    RotateSignedPreKey { device_id: String },
    /// Open the message stream.
    OpenMessageStream {
        conversation_ids: Vec<String>,
        /// Server cursor of the last session, for a gapless resume.
        since_cursor: Option<String>,
    },
    /// Close the message stream.
    CloseMessageStream,
    /// Send a message over the open stream.
    SendMessage {
        contact_id: String,
        encrypted_payload: Vec<u8>,
        /// Client-assigned id for correlation.
        local_id: String,
        conversation_id: String,
    },
    /// Acknowledge delivery of an incoming message.
    AckMessage { message_id: String, message_number: u64 },
    /// Initiate a session with a contact: the engine fetches the contact's pre-key bundle, then
    /// calls back with `PlatformAction::SessionInitiatorReady`.
    InitSessionInitiator { contact_id: String },
    /// Search for a user.
    SearchUser { query: String },
    /// Send a call signal.
    Signal { call_id: String, signal_bytes: Vec<u8> },
    /// Register a push token.
    RegisterPushToken {
        token: String,
        /// `"apns"` or `"fcm"`.
        platform: String,
    },
    /// A Keychain value, or `None` when the key was not found.
    KeychainResult { key: String, data: Option<Vec<u8>> },
    /// All platform services are up.
    PlatformReady,
    /// Offer a peer our candidates for a direct connection.
    P2PHandoffInitiate { peer_id: String, candidates: Vec<ICECandidate> },
    /// Answer a peer's offer of a direct connection.
    P2PHandoffAck {
        session_id: String,
        success: bool,
        candidates: Vec<ICECandidate>,
        measured_latency_ms: Option<u64>,
    },
}

/// An action that the platform performs for the engine.
#[derive(Debug)]
pub enum PlatformAction {
    /// Persist data in the Keychain.
    SaveKeychain { key: String, data: Vec<u8> },
    /// Read a Keychain value and send it back as `UiEvent::KeychainResult`.
    LoadKeychain { key: String },
    /// Delete a Keychain item.
    DeleteKeychain { key: String },
    /// Store new auth tokens.
    SetAuthToken {
        /// Present after a registration; empty after authentication or a token refresh.
        user_id: String,
        access_token: String,
        refresh_token: String,
        /// Unix time in seconds at which the access token expires.
        expires_at: i64,
    },
    /// Clear all auth state.
    ClearAuth,
    /// The device was registered.
    RegistrationComplete { user_id: String, device_id: String },
    /// Persist a received message.
    SaveMessage {
        envelope_bytes: Vec<u8>,
        sender_id: String,
        conversation_id: String,
        timestamp: i64,
    },
    /// Update the delivery status of a sent message: 0 pending, 1 sent, 2 delivered, 3 read.
    UpdateMessageStatus { local_id: String, status: u8 },
    /// Show a decrypted message.
    DisplayMessage {
        plaintext: Vec<u8>,
        sender_id: String,
        conversation_id: String,
        timestamp: i64,
    },
    /// A delivery receipt arrived.
    DeliveryReceipt { message_id: String, conversation_id: String, timestamp: i64 },
    /// A session with a contact was initiated; the payload is to be sent to the contact.
    SessionInitiatorReady { contact_id: String, wire_payload: Vec<u8> },
    /// A session with a contact was established.
    SessionEstablished { contact_id: String, session_id: String },
    /// A session operation failed.
    SessionError { contact_id: String, message: String },
    /// A pre-key bundle was fetched.
    PreKeyBundleReady { user_id: String, bundle_bytes: Vec<u8> },
    /// One-time pre-keys were uploaded.
    OtpksUploaded {
        /// Number of keys in this batch.
        uploaded: u32,
        /// Number of keys on the server afterwards.
        server_count: u32,
    },
    /// How many one-time pre-keys the server has.
    PreKeyCountUpdated { count: u32, recommended_minimum: u32 },
    /// The signed pre-key was rotated.
    SpkRotated { key_id: u32 },
    /// The message stream is open.
    StreamReady { stream_cursor: Option<String> },
    /// The message stream could not be opened, or closed unexpectedly.
    StreamError { message: String },
    /// A call came in.
    IncomingCall { call_id: String, caller_id: String, signal_bytes: Vec<u8> },
    /// A call signal arrived mid-call.
    CallSignalReceived { call_id: String, signal_bytes: Vec<u8> },
    /// The connection to the server came up or was lost.
    ConnectionStateChanged { connected: bool },
    /// A network error.
    NetworkError { message: String },
    /// A log line.
    Log { level: String, message: String },
}

} // verus!
