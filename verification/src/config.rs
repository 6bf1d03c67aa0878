//! Engine configuration.

use vstd::prelude::*;

use crate::text::decimal_text;

verus! {

/// Engine configuration, passed in by the platform at startup.
#[derive(Debug, Clone)]
pub struct EngineConfig {
    /// Server host name, such as `api.konstruct.cc`.
    pub server_host: String,
    /// QUIC/HTTP3 port.
    pub server_port: u16,
    /// The user's device id; empty before the first authentication.
    pub my_device_id: String,
    /// The user's id; empty before registration.
    pub my_user_id: String,
    /// Private-key blob from the Keychain; empty on a fresh install.
    pub keys_cfe_data: Vec<u8>,
    /// Access token of an earlier session, if there was one.
    pub auth_token: Option<String>,
    /// Whether to verify TLS certificates (false only in development).
    pub verify_certs: bool,
    /// Whether QUIC is tunnelled through a MASQUE proxy.
    pub use_masque: bool,
    /// MASQUE proxy host, required when `use_masque` is set.
    pub masque_host: Option<String>,
    /// MASQUE proxy port.
    pub masque_port: Option<u16>,
    /// Depth of the event channel.
    pub event_buffer: usize,
}

impl Default for EngineConfig {
    fn default() -> (config: Self)
        ensures
            config.server_host@ == "api.konstruct.cc"@,
            config.server_port == 443,
            config.my_device_id@ == Seq::<char>::empty(),
            config.my_user_id@ == Seq::<char>::empty(),
            config.keys_cfe_data@ == Seq::<u8>::empty(),
            config.auth_token is None,
            config.verify_certs,
            !config.use_masque,
            config.masque_host is None,
            config.masque_port is None,
            config.event_buffer == 1024,
    {
        EngineConfig {
            server_host: String::from_str("api.konstruct.cc"),
            server_port: 443,
            my_device_id: String::new(),
            my_user_id: String::new(),
            keys_cfe_data: Vec::new(),
            auth_token: None,
            verify_certs: true,
            use_masque: false,
            masque_host: None,
            masque_port: None,
            event_buffer: 1024,
        }
    }
}

impl EngineConfig {
    /// `host:port` of the server.
    pub open spec fn authority(self) -> Seq<char> {
        self.server_host@ + ":"@ + crate::text::decimal(self.server_port as nat)
    }

    /// The server's `host:port`, as used for name resolution and request URIs.
    pub fn server_addr(&self) -> (addr: String)
        ensures
            addr@ == self.authority(),
    {
        let port = decimal_text(self.server_port as u64);
        self.server_host.clone().concat(":").concat(port.as_str())
    }
}

} // verus!
