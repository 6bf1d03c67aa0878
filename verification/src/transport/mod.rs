//! Transport: gRPC framing and the protocols spoken over HTTP/3.

use vstd::prelude::*;

use crate::buffers::buffer_limit;
use crate::config::EngineConfig;
use crate::error::EngineError;
use crate::http_types::request_parts;

pub mod connection;
pub mod grpc;
pub mod request;
pub mod stream;
pub mod unary;

pub use connection::QuicConnection;

use connection::{connect_failure, connect_failure_text, ConnectStep};
use grpc::frame_of;
use request::{call_parts, is_sendable, unsendable_text};
use stream::{OpenStep, OpeningView, StreamOpening};
use unary::{UnaryCall, UnaryStep, UnaryView};

verus! {

pub const AUTH_AUTHENTICATE: &'static str =
    "/shared.proto.services.v1.AuthService/AuthenticateDevice";

pub const AUTH_REFRESH: &'static str = "/shared.proto.services.v1.AuthService/RefreshToken";

pub const AUTH_LOGOUT: &'static str = "/shared.proto.services.v1.AuthService/Logout";

pub const AUTH_REGISTER: &'static str = "/shared.proto.services.v1.AuthService/RegisterDevice";

pub const KEY_GET_BUNDLE: &'static str = "/shared.proto.services.v1.KeyService/GetPreKeyBundle";

pub const KEY_UPLOAD: &'static str = "/shared.proto.services.v1.KeyService/UploadPreKeys";

pub const KEY_COUNT: &'static str = "/shared.proto.services.v1.KeyService/GetPreKeyCount";

pub const KEY_ROTATE_SPK: &'static str = "/shared.proto.services.v1.KeyService/RotateSignedPreKey";

pub const MESSAGING_STREAM: &'static str =
    "/shared.proto.services.v1.MessagingService/MessageStream";

pub const MESSAGING_GET_PENDING: &'static str =
    "/shared.proto.services.v1.MessagingService/GetPendingMessages";

pub const USER_FIND: &'static str = "/shared.proto.services.v1.UserService/FindUser";

pub const NOTIFICATION_REGISTER: &'static str =
    "/shared.proto.services.v1.NotificationService/RegisterDeviceToken";

/// What the engine knows of its connection to the server.
#[derive(Debug)]
pub struct Transport {
    config: EngineConfig,
    connected: bool,
    token: Option<String>,
}

/// The state of the transport as the contracts see it.
pub struct TransportView {
    pub config: EngineConfig,
    /// Whether a live HTTP/3 connection is held.
    pub connected: bool,
    /// The bearer token that calls carry.
    pub token: Option<String>,
}

impl View for Transport {
    type V = TransportView;

    closed spec fn view(&self) -> TransportView {
        TransportView { config: self.config, connected: self.connected, token: self.token }
    }
}

/// The text of an optional token.
pub open spec fn token_text(token: Option<String>) -> Option<Seq<char>> {
    match token {
        Some(t) => Some(t@),
        None => None,
    }
}

impl Transport {
    /// A transport that is not connected and uses the configured token.
    pub fn new(config: EngineConfig) -> (t: Self)
        ensures
            t@ == (TransportView { config, connected: false, token: config.auth_token }),
    {
        let token = match &config.auth_token {
            Some(t) => Some(t.clone()),
            None => None,
        };
        Transport { config, connected: false, token }
    }

    /// The configuration.
    pub fn config(&self) -> (config: &EngineConfig)
        ensures
            *config == self@.config,
    {
        &self.config
    }

    /// Whether a connection must be made before the next call.
    pub fn needs_connection(&self) -> (b: bool)
        ensures
            b == !self@.connected,
    {
        !self.connected
    }

    /// Takes the outcome of connecting.
    pub fn connect_h3(&mut self, outcome: Result<(), (ConnectStep, String)>) -> (r: Result<
        (),
        EngineError,
    >)
        ensures
            match outcome {
                Ok(_) => {
                    &&& r is Ok
                    &&& final(self)@ == (TransportView { connected: true, ..old(self)@ })
                },
                Err((step, cause)) => {
                    &&& r matches Err(EngineError::Transport { message }) && message@
                        == connect_failure_text(step, cause@)
                    &&& final(self)@ == old(self)@
                },
            },
    {
        match outcome {
            Ok(_) => {
                self.connected = true;
                Ok(())
            },
            Err((step, cause)) => Err(connect_failure(step, cause.as_str())),
        }
    }

    /// Sets the token that calls carry.
    pub fn set_token(&mut self, token: String)
        ensures
            final(self)@ == (TransportView { token: Some(token), ..old(self)@ }),
    {
        self.token = Some(token);
    }

    /// Lets calls carry no token.
    pub fn clear_token(&mut self)
        ensures
            final(self)@ == (TransportView { token: None, ..old(self)@ }),
    {
        self.token = None;
    }

    /// Starts a unary call on the connection: the call and the request to send. The connection
    /// is dropped when the request cannot be built.
    pub fn unary_call(&mut self, service_path: &str, request_bytes: &[u8]) -> (r: Result<
        (UnaryCall, http::Request<()>),
        EngineError,
    >)
        requires
            request_bytes@.len() + 5 <= buffer_limit(),
        ensures
            ({
                let authority = old(self)@.config.authority();
                let token = token_text(old(self)@.token);
                match r {
                    Ok((call, req)) => {
                        &&& old(self)@.connected
                        &&& is_sendable(authority, service_path@, token)
                        &&& request_parts(req) == call_parts(authority, service_path@, token)
                        &&& call.well_formed()
                        &&& call@ == (UnaryView {
                            step: UnaryStep::SendRequest,
                            path: service_path@,
                            frame: Some(frame_of(request_bytes@)),
                            body: Seq::empty(),
                        })
                        &&& final(self)@ == old(self)@
                    },
                    Err(e) => {
                        &&& !old(self)@.connected || !is_sendable(authority, service_path@, token)
                        &&& e matches EngineError::Transport { message } && if old(self)@.connected {
                            message@ == "build request: "@ + unsendable_text(
                                authority,
                                service_path@,
                            )
                        } else {
                            message@ == "H3 not connected"@
                        }
                        &&& final(self)@ == (TransportView { connected: false, ..old(self)@ })
                    },
                }
            }),
    {
        if !self.connected {
            return Err(EngineError::transport("H3 not connected"));
        }
        let authority = self.config.server_addr();
        let token = match &self.token {
            Some(t) => Some(t.as_str()),
            None => None,
        };
        match UnaryCall::start(authority.as_str(), service_path, request_bytes, token) {
            Ok(started) => Ok(started),
            Err(e) => {
                self.connected = false;
                Err(e)
            },
        }
    }

    /// Takes the result of a call: after a transport error the connection is dropped, so that
    /// the next call makes a new one.
    pub fn after_call(&mut self, result: &Result<Vec<u8>, EngineError>)
        ensures
            final(self)@ == (TransportView {
                connected: old(self)@.connected && !(result matches Err(EngineError::Transport {
                    ..
                })),
                ..old(self)@
            }),
    {
        match result {
            Err(EngineError::Transport { .. }) => {
                self.connected = false;
            },
            _ => {},
        }
    }

    /// Starts opening the message stream on the connection.
    pub fn open_message_stream(
        &self,
        conversation_ids: Vec<String>,
        since_cursor: Option<String>,
    ) -> (r: Result<(StreamOpening, http::Request<()>), EngineError>)
        ensures
            ({
                let authority = self@.config.authority();
                let token = token_text(self@.token);
                match r {
                    Ok((opening, req)) => {
                        &&& self@.connected
                        &&& is_sendable(authority, MESSAGING_STREAM@, token)
                        &&& request_parts(req) == call_parts(authority, MESSAGING_STREAM@, token)
                        &&& opening@ == (OpeningView {
                            step: OpenStep::SendRequest,
                            conversation_ids: conversation_ids@,
                            since_cursor,
                        })
                    },
                    Err(e) => {
                        &&& !self@.connected || !is_sendable(authority, MESSAGING_STREAM@, token)
                        &&& e matches EngineError::Transport { message } && if self@.connected {
                            message@ == "build stream request: "@ + unsendable_text(
                                authority,
                                MESSAGING_STREAM@,
                            )
                        } else {
                            message@ == "H3 not connected"@
                        }
                    },
                }
            }),
    {
        if !self.connected {
            return Err(EngineError::transport("H3 not connected"));
        }
        let authority = self.config.server_addr();
        let token = match &self.token {
            Some(t) => Some(t.as_str()),
            None => None,
        };
        StreamOpening::start(
            authority.as_str(),
            MESSAGING_STREAM,
            conversation_ids,
            since_cursor,
            token,
        )
    }
}

} // verus!
