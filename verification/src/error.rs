//! Errors that the engine reports.

use vstd::prelude::*;
use vstd::string::*;

use crate::text::decimal_text;

verus! {

/// What went wrong inside the engine.
#[derive(Debug)]
pub enum EngineError {
    /// The QUIC or HTTP/3 layer failed.
    Transport { message: String },
    /// The TLS configuration could not be built.
    Tls { message: String },
    /// The server answered with a gRPC status other than OK.
    Grpc { code: u32, message: String },
    /// The key blob could not be turned into a crypto core.
    Crypto { message: String },
    /// The configuration is unusable.
    Config { message: String },
    /// The engine was started twice.
    AlreadyRunning,
    /// The engine was not started.
    NotRunning,
    /// The operation took too long.
    Timeout,
    /// The server rejected the caller's credentials.
    Unauthenticated { message: String },
    /// A defect or resource failure inside the engine.
    Internal { message: String },
}

impl EngineError {
    /// A transport error whose message is the displayed `msg`.
    pub fn transport<M: core::fmt::Display + ?Sized>(msg: &M) -> (e: Self)
        ensures
            e matches EngineError::Transport { message } && to_string_from_display_ensures::<M>(
                msg,
                message,
            ),
    {
        EngineError::Transport { message: msg.to_string() }
    }

    /// A TLS error whose message is the displayed `msg`.
    pub fn tls<M: core::fmt::Display + ?Sized>(msg: &M) -> (e: Self)
        ensures
            e matches EngineError::Tls { message } && to_string_from_display_ensures::<M>(
                msg,
                message,
            ),
    {
        EngineError::Tls { message: msg.to_string() }
    }

    /// A gRPC error with the given status code and displayed message.
    pub fn grpc<M: core::fmt::Display + ?Sized>(code: u32, msg: &M) -> (e: Self)
        ensures
            e matches EngineError::Grpc { code: c, message } && c == code
                && to_string_from_display_ensures::<M>(msg, message),
    {
        EngineError::Grpc { code, message: msg.to_string() }
    }

    /// A crypto error whose message is the displayed `msg`.
    pub fn crypto<M: core::fmt::Display + ?Sized>(msg: &M) -> (e: Self)
        ensures
            e matches EngineError::Crypto { message } && to_string_from_display_ensures::<M>(
                msg,
                message,
            ),
    {
        EngineError::Crypto { message: msg.to_string() }
    }

    /// A configuration error whose message is the displayed `msg`.
    pub fn config<M: core::fmt::Display + ?Sized>(msg: &M) -> (e: Self)
        ensures
            e matches EngineError::Config { message } && to_string_from_display_ensures::<M>(
                msg,
                message,
            ),
    {
        EngineError::Config { message: msg.to_string() }
    }

    /// An authentication error whose message is the displayed `msg`.
    pub fn unauthenticated<M: core::fmt::Display + ?Sized>(msg: &M) -> (e: Self)
        ensures
            e matches EngineError::Unauthenticated { message }
                && to_string_from_display_ensures::<M>(msg, message),
    {
        EngineError::Unauthenticated { message: msg.to_string() }
    }

    /// An internal error whose message is the displayed `msg`.
    pub fn internal<M: core::fmt::Display + ?Sized>(msg: &M) -> (e: Self)
        ensures
            e matches EngineError::Internal { message } && to_string_from_display_ensures::<M>(
                msg,
                message,
            ),
    {
        EngineError::Internal { message: msg.to_string() }
    }

    /// The text under which an error is shown to users and written to logs.
    pub open spec fn text(self) -> Seq<char> {
        match self {
            EngineError::Transport { message } => "Transport error: "@ + message@,
            EngineError::Tls { message } => "TLS error: "@ + message@,
            EngineError::Grpc { code, message } => "gRPC error: code="@ + crate::text::decimal(
                code as nat,
            ) + ", message="@ + message@,
            EngineError::Crypto { message } => "Crypto error: "@ + message@,
            EngineError::Config { message } => "Config error: "@ + message@,
            EngineError::AlreadyRunning => "Engine is already running"@,
            EngineError::NotRunning => "Engine is not running"@,
            EngineError::Timeout => "Operation timed out"@,
            EngineError::Unauthenticated { message } => "Unauthenticated: "@ + message@,
            EngineError::Internal { message } => "Internal error: "@ + message@,
        }
    }

    /// Renders the error for display.
    pub fn display_text(&self) -> (s: String)
        ensures
            s@ == self.text(),
    {
        match self {
            EngineError::Transport { message } => String::from_str("Transport error: ").concat(
                message.as_str(),
            ),
            EngineError::Tls { message } => String::from_str("TLS error: ").concat(
                message.as_str(),
            ),
            EngineError::Grpc { code, message } => {
                let code_text = decimal_text(*code as u64);
                String::from_str("gRPC error: code=").concat(code_text.as_str()).concat(
                    ", message=",
                ).concat(message.as_str())
            },
            EngineError::Crypto { message } => String::from_str("Crypto error: ").concat(
                message.as_str(),
            ),
            EngineError::Config { message } => String::from_str("Config error: ").concat(
                message.as_str(),
            ),
            EngineError::AlreadyRunning => String::from_str("Engine is already running"),
            EngineError::NotRunning => String::from_str("Engine is not running"),
            EngineError::Timeout => String::from_str("Operation timed out"),
            EngineError::Unauthenticated { message } => String::from_str(
                "Unauthenticated: ",
            ).concat(message.as_str()),
            EngineError::Internal { message } => String::from_str("Internal error: ").concat(
                message.as_str(),
            ),
        }
    }
}

} // verus!
