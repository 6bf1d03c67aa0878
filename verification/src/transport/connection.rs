//! Setting up the QUIC endpoint and connecting it to the server.

use vstd::prelude::*;
use vstd::string::*;

use crate::config::EngineConfig;
use crate::error::EngineError;

verus! {

/// Address that the endpoint is bound to: any interface, any free port.
pub const LOCAL_BIND_ADDR: &'static str = "0.0.0.0:0";

/// Application protocol that the TLS handshake announces.
pub const ALPN_PROTOCOL: &'static str = "h3";

/// Which server certificates are accepted.
#[derive(Debug, Clone, Copy, PartialEq, Eq, Structural)]
pub enum CertificateTrust {
    /// Those that chain to a root of the operating system or to a bundled root.
    SystemAndBundledRoots,
    /// Any certificate; for development only.
    AnyCertificate,
}

/// What the setup is waiting for.
#[derive(Debug, Clone, Copy, PartialEq, Eq, Structural)]
pub enum SetupStep {
    /// The operating system's root certificates are being loaded.
    LoadNativeCerts,
    /// They are being added to the root store.
    AddCerts,
    /// The QUIC client configuration is being built.
    BuildConfig,
    /// The endpoint is being bound.
    Bind,
    /// The server's name is being resolved.
    Resolve,
    /// The setup is over.
    Ended,
}

/// What the driver reports during setup.
pub enum SetupEvent {
    /// The step succeeded.
    Done,
    /// The server's name has these addresses.
    Resolved(Vec<String>),
    /// The step failed, with this description.
    Failed(String),
}

/// What the driver does next during setup.
pub enum SetupAction {
    /// Load the operating system's root certificates.
    LoadNativeCerts,
    /// Add them, and the bundled ones, to the root store.
    AddCerts,
    /// Build the TLS and QUIC client configuration.
    BuildConfig(CertificateTrust),
    /// Bind the endpoint to `LOCAL_BIND_ADDR`.
    Bind,
    /// Resolve this `host:port`.
    Resolve(String),
    /// The endpoint is ready to connect to this address.
    Ready(String),
    /// The endpoint could not be set up.
    Fail(EngineError),
}

/// A QUIC endpoint that is being set up for one server.
#[derive(Debug)]
pub struct QuicConnection {
    server_name: String,
    host_port: String,
    trust: CertificateTrust,
    step: SetupStep,
}

/// The state of a setup as the contracts see it.
pub struct SetupView {
    pub server_name: Seq<char>,
    pub host_port: Seq<char>,
    pub trust: CertificateTrust,
    pub step: SetupStep,
}

/// The certificates that a configuration accepts.
pub open spec fn trust_of(config: EngineConfig) -> CertificateTrust {
    if config.verify_certs {
        CertificateTrust::SystemAndBundledRoots
    } else {
        CertificateTrust::AnyCertificate
    }
}

/// Whether an event can be the outcome of what a setup is waiting for.
pub open spec fn setup_event_fits(step: SetupStep, event: SetupEvent) -> bool {
    match event {
        SetupEvent::Done => step != SetupStep::Resolve && step != SetupStep::Ended,
        SetupEvent::Resolved(_) => step == SetupStep::Resolve,
        SetupEvent::Failed(_) => step != SetupStep::Ended,
    }
}

/// Whether an error is the one that a failed setup step is reported as.
pub open spec fn is_setup_error(setup: SetupView, cause: Seq<char>, e: EngineError) -> bool {
    match setup.step {
        SetupStep::LoadNativeCerts => e matches EngineError::Tls { message } && message@
            == "native certs: "@ + cause,
        SetupStep::AddCerts => e matches EngineError::Tls { message } && message@ == "add cert: "@
            + cause,
        SetupStep::BuildConfig => e matches EngineError::Tls { message } && message@
            == "QuicClientConfig: "@ + cause,
        SetupStep::Bind => e matches EngineError::Transport { message } && message@
            == "endpoint bind: "@ + cause,
        _ => e matches EngineError::Transport { message } && message@ == "DNS resolve '"@
            + setup.host_port + "': "@ + cause,
    }
}

/// How a setup moves on from one event.
pub open spec fn is_setup_step(
    pre: SetupView,
    event: SetupEvent,
    post: SetupView,
    action: SetupAction,
) -> bool {
    &&& post == (SetupView { step: post.step, ..pre })
    &&& match event {
        SetupEvent::Done => match pre.step {
            SetupStep::LoadNativeCerts => {
                &&& post.step == SetupStep::AddCerts
                &&& action is AddCerts
            },
            SetupStep::AddCerts => {
                &&& post.step == SetupStep::BuildConfig
                &&& action == SetupAction::BuildConfig(pre.trust)
            },
            SetupStep::BuildConfig => {
                &&& post.step == SetupStep::Bind
                &&& action is Bind
            },
            _ => {
                &&& post.step == SetupStep::Resolve
                &&& action matches SetupAction::Resolve(name) && name@ == pre.host_port
            },
        },
        SetupEvent::Resolved(addresses) => {
            &&& post.step == SetupStep::Ended
            &&& if addresses@.len() > 0 {
                action == SetupAction::Ready(addresses@[0])
            } else {
                action matches SetupAction::Fail(EngineError::Transport { message }) && message@
                    == "no addresses for '"@ + pre.host_port + "'"@
            }
        },
        SetupEvent::Failed(cause) => {
            &&& post.step == SetupStep::Ended
            &&& action matches SetupAction::Fail(e) && is_setup_error(pre, cause@, e)
        },
    }
}

impl View for QuicConnection {
    type V = SetupView;

    closed spec fn view(&self) -> SetupView {
        SetupView {
            server_name: self.server_name@,
            host_port: self.host_port@,
            trust: self.trust,
            step: self.step,
        }
    }
}

impl QuicConnection {
    /// Starts the setup for the configured server: the machine and the first thing to do. The
    /// operating system's certificates are loaded only if certificates are verified.
    pub fn new(config: &EngineConfig) -> (r: (QuicConnection, SetupAction))
        ensures
            r.0@ == (SetupView {
                server_name: config.server_host@,
                host_port: config.authority(),
                trust: trust_of(*config),
                step: if config.verify_certs {
                    SetupStep::LoadNativeCerts
                } else {
                    SetupStep::BuildConfig
                },
            }),
            if config.verify_certs {
                r.1 is LoadNativeCerts
            } else {
                r.1 == SetupAction::BuildConfig(CertificateTrust::AnyCertificate)
            },
    {
        let server_name = config.server_host.clone();
        let host_port = config.server_addr();
        if config.verify_certs {
            (
                QuicConnection {
                    server_name,
                    host_port,
                    trust: CertificateTrust::SystemAndBundledRoots,
                    step: SetupStep::LoadNativeCerts,
                },
                SetupAction::LoadNativeCerts,
            )
        } else {
            (
                QuicConnection {
                    server_name,
                    host_port,
                    trust: CertificateTrust::AnyCertificate,
                    step: SetupStep::BuildConfig,
                },
                SetupAction::BuildConfig(CertificateTrust::AnyCertificate),
            )
        }
    }

    /// The name that the server's certificate must carry.
    pub fn server_name(&self) -> (name: &str)
        ensures
            name@ == self@.server_name,
    {
        self.server_name.as_str()
    }

    /// What the setup is waiting for.
    pub fn step(&self) -> (step: SetupStep)
        ensures
            step == self@.step,
    {
        self.step
    }

    /// Moves the setup on: takes the outcome of the last action and says what to do next.
    pub fn on_event(&mut self, event: SetupEvent) -> (action: SetupAction)
        requires
            setup_event_fits(old(self)@.step, event),
        ensures
            is_setup_step(old(self)@, event, final(self)@, action),
    {
        match event {
            SetupEvent::Done => match self.step {
                SetupStep::LoadNativeCerts => {
                    self.step = SetupStep::AddCerts;
                    SetupAction::AddCerts
                },
                SetupStep::AddCerts => {
                    self.step = SetupStep::BuildConfig;
                    SetupAction::BuildConfig(self.trust)
                },
                SetupStep::BuildConfig => {
                    self.step = SetupStep::Bind;
                    SetupAction::Bind
                },
                _ => {
                    self.step = SetupStep::Resolve;
                    SetupAction::Resolve(self.host_port.clone())
                },
            },
            SetupEvent::Resolved(addresses) => {
                self.step = SetupStep::Ended;
                if addresses.len() > 0 {
                    SetupAction::Ready(addresses[0].clone())
                } else {
                    let text = String::from_str("no addresses for '").concat(
                        self.host_port.as_str(),
                    ).concat("'");
                    SetupAction::Fail(EngineError::transport(text.as_str()))
                }
            },
            SetupEvent::Failed(cause) => {
                let e = match self.step {
                    SetupStep::LoadNativeCerts => EngineError::tls(
                        String::from_str("native certs: ").concat(cause.as_str()).as_str(),
                    ),
                    SetupStep::AddCerts => EngineError::tls(
                        String::from_str("add cert: ").concat(cause.as_str()).as_str(),
                    ),
                    SetupStep::BuildConfig => EngineError::tls(
                        String::from_str("QuicClientConfig: ").concat(cause.as_str()).as_str(),
                    ),
                    SetupStep::Bind => EngineError::transport(
                        String::from_str("endpoint bind: ").concat(cause.as_str()).as_str(),
                    ),
                    _ => EngineError::transport(
                        String::from_str("DNS resolve '").concat(self.host_port.as_str()).concat(
                            "': ",
                        ).concat(cause.as_str()).as_str(),
                    ),
                };
                self.step = SetupStep::Ended;
                SetupAction::Fail(e)
            },
        }
    }
}

/// The steps of connecting a ready endpoint.
#[derive(Debug, Clone, Copy, PartialEq, Eq, Structural)]
pub enum ConnectStep {
    /// The connection is being started.
    Connect,
    /// The QUIC handshake is under way.
    Handshake,
    /// The HTTP/3 client is being set up.
    H3Init,
}

/// The error text of a failed connection step.
pub open spec fn connect_failure_text(step: ConnectStep, cause: Seq<char>) -> Seq<char> {
    match step {
        ConnectStep::Connect => "connect: "@ + cause,
        ConnectStep::Handshake => "handshake: "@ + cause,
        ConnectStep::H3Init => "h3 client init: "@ + cause,
    }
}

/// The error of a failed connection step.
pub fn connect_failure(step: ConnectStep, cause: &str) -> (e: EngineError)
    ensures
        e matches EngineError::Transport { message } && message@ == connect_failure_text(
            step,
            cause@,
        ),
{
    let prefix = match step {
        ConnectStep::Connect => "connect: ",
        ConnectStep::Handshake => "handshake: ",
        ConnectStep::H3Init => "h3 client init: ",
    };
    EngineError::transport(String::from_str(prefix).concat(cause).as_str())
}

} // verus!
