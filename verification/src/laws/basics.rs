//! Laws of errors, the configuration, the crypto core's keys and the connectivity probe.

use bytes::Bytes;
use vstd::multiset::Multiset;
use vstd::prelude::*;

use crate::buffers::bytes_content;
use crate::config::EngineConfig;
use crate::core_bridge::{build_core, has_keys, CoreFault};
use crate::error::EngineError;
use crate::http_types::{parsed_uri, request_parts};
use crate::probe::{append_chunk, parse_args, ProbeTarget};
use crate::text::{clone_texts, decimal_text, parse_unsigned, same_text};

verus! {

/// Each constructor makes its own kind of error, with the message that it was given.
pub proof fn law_errors_keep_their_message(
    code: u32,
    msg: &str,
    transport: EngineError,
    tls: EngineError,
    grpc: EngineError,
    crypto: EngineError,
    config: EngineError,
    unauthenticated: EngineError,
    internal: EngineError,
)
    requires
        call_ensures(EngineError::transport::<str>, (msg,), transport),
        call_ensures(EngineError::tls::<str>, (msg,), tls),
        call_ensures(EngineError::grpc::<str>, (code, msg), grpc),
        call_ensures(EngineError::crypto::<str>, (msg,), crypto),
        call_ensures(EngineError::config::<str>, (msg,), config),
        call_ensures(EngineError::unauthenticated::<str>, (msg,), unauthenticated),
        call_ensures(EngineError::internal::<str>, (msg,), internal),
    ensures
        transport matches EngineError::Transport { message } && message@ == msg@,
        tls matches EngineError::Tls { message } && message@ == msg@,
        grpc matches EngineError::Grpc { code: c, message } && c == code && message@ == msg@,
        crypto matches EngineError::Crypto { message } && message@ == msg@,
        config matches EngineError::Config { message } && message@ == msg@,
        unauthenticated matches EngineError::Unauthenticated { message } && message@ == msg@,
        internal matches EngineError::Internal { message } && message@ == msg@,
{
}

/// The shown text of an error names its kind, then gives its message word for word; that of a
/// server's refusal also gives the code in decimal.
pub proof fn law_error_text_names_kind_and_message(
    error: EngineError,
    text: String,
    code: u32,
    digits: String,
)
    requires
        call_ensures(EngineError::display_text, (&error,), text),
        call_ensures(decimal_text, (code as u64,), digits),
    ensures
        error matches EngineError::Transport { message } ==> text@ == "Transport error: "@
            + message@,
        error matches EngineError::Tls { message } ==> text@ == "TLS error: "@ + message@,
        error matches EngineError::Grpc { code: c, message } ==> (c == code ==> text@
            == "gRPC error: code="@ + digits@ + ", message="@ + message@),
        error matches EngineError::Crypto { message } ==> text@ == "Crypto error: "@ + message@,
        error matches EngineError::Config { message } ==> text@ == "Config error: "@ + message@,
        error is AlreadyRunning ==> text@ == "Engine is already running"@,
        error is NotRunning ==> text@ == "Engine is not running"@,
        error is Timeout ==> text@ == "Operation timed out"@,
        error matches EngineError::Unauthenticated { message } ==> text@ == "Unauthenticated: "@
            + message@,
        error matches EngineError::Internal { message } ==> text@ == "Internal error: "@ + message@,
{
}

/// The server's address is its host, a colon and its port in decimal.
pub proof fn law_address_is_host_and_port(config: &EngineConfig, addr: String, port: String)
    requires
        call_ensures(EngineConfig::server_addr, (config,), addr),
        call_ensures(decimal_text, (config.server_port as u64,), port),
    ensures
        addr@ == config.server_host@ + ":"@ + port@,
{
}

/// The default configuration is for the public server, verifies certificates, and names no user,
/// device, key, token or proxy.
pub proof fn law_default_configuration(c: EngineConfig)
    requires
        call_ensures(<EngineConfig as Default>::default, (), c),
    ensures
        c.server_host@ == "api.konstruct.cc"@ && c.server_port == 443,
        c.my_device_id@.len() == 0 && c.my_user_id@.len() == 0 && c.keys_cfe_data@.len() == 0,
        c.auth_token is None,
        c.verify_certs,
        !c.use_masque && c.masque_host is None && c.masque_port is None,
        c.event_buffer == 1024,
{
}

/// Two texts are the same exactly if their characters are, and a copied list of texts has the
/// same texts in the same order.
pub proof fn law_texts_are_compared_and_copied(
    a: &str,
    b: &str,
    same: bool,
    texts: &[String],
    copy: Vec<String>,
)
    requires
        call_ensures(same_text, (a, b), same),
        call_ensures(clone_texts, (texts,), copy),
    ensures
        same <==> a@ =~= b@,
        copy@.len() == texts@.len(),
        forall|i: int| #![trigger copy@[i]] 0 <= i < texts@.len() ==> copy@[i]@ == texts@[i]@,
{
}

/// Without keys there is no core, whatever was tried; with keys the core that was built is handed
/// on, and a failure says which step failed and why.
pub proof fn law_core_needs_keys(
    keys: &[u8],
    found: bool,
    built: Result<u64, CoreFault>,
    r: Result<Option<u64>, EngineError>,
)
    requires
        call_ensures(has_keys, (keys,), found),
        call_ensures(build_core::<u64>, (keys, built), r),
    ensures
        found <==> keys@.len() > 0,
        !found ==> (r matches Ok(core) && core is None),
        found ==> r is Ok == built is Ok,
        found ==> (built matches Ok(core) ==> (r matches Ok(made) && made == Some(core))),
        found ==> (built matches Err(CoreFault::Decode(cause)) ==> (r matches Err(
            EngineError::Crypto { message },
        ) && message@ == "decode private keys: "@ + cause@)),
        found ==> (built matches Err(CoreFault::Client(cause)) ==> (r matches Err(
            EngineError::Crypto { message },
        ) && message@ == "build crypto client: "@ + cause@)),
{
}

/// The probe takes host, path and port from its arguments, each with a default: the second, third
/// and fourth argument where they are given, and the usual port where the fourth is no port.
pub proof fn law_probe_arguments(
    args: &[String],
    target: ProbeTarget,
    port_text: &str,
    port: Option<u32>,
)
    requires
        call_ensures(parse_args, (args,), target),
        call_ensures(parse_unsigned, (port_text, 65535), port),
        args@.len() > 3 ==> port_text@ == args@[3]@,
    ensures
        target.host@ == if args@.len() > 1 {
            args@[1]@
        } else {
            "cloudflare.com"@
        },
        target.path@ == if args@.len() > 2 {
            args@[2]@
        } else {
            "/cdn-cgi/trace"@
        },
        args@.len() <= 3 ==> target.port == 443,
        args@.len() > 3 && port is None ==> target.port == 443,
        args@.len() > 3 && port is Some ==> port == Some(target.port as u32),
{
}

/// The probe resolves host and port, takes the first address, and asks for the path of the host
/// with a GET request that names the program and no other header. A host without addresses, and
/// a text that is no URI, is an error that says so.
pub proof fn law_probe_asks_for_its_target(
    target: &ProbeTarget,
    host_port: String,
    port: String,
    addresses: Vec<String>,
    picked: Result<String, String>,
    request: Result<http::Request<()>, String>,
)
    requires
        call_ensures(ProbeTarget::host_port, (target,), host_port),
        call_ensures(decimal_text, (target.port as u64,), port),
        call_ensures(ProbeTarget::pick_address, (target, addresses), picked),
        call_ensures(ProbeTarget::request, (target,), request),
    ensures
        host_port@ == target.host@ + ":"@ + port@,
        addresses@.len() > 0 ==> (picked matches Ok(address) && address == addresses@[0]),
        addresses@.len() == 0 ==> (picked matches Err(why) && why@ == "DNS resolve failed for "@
            + target.host@),
        ({
            let uri = parsed_uri("https://"@ + target.host@ + target.path@);
            &&& request is Ok == uri is Ok
            &&& request matches Err(why) ==> uri == Err::<Seq<char>, Seq<char>>(why@)
            &&& request matches Ok(made) ==> {
                &&& request_parts(made).0 == "GET"@
                &&& uri == Ok::<Seq<char>, Seq<char>>(request_parts(made).1)
                &&& request_parts(made).2 == Multiset::singleton(
                    ("user-agent"@, "construct-engine/0.1.0"@),
                )
            }
        }),
{
    assert(Multiset::<(Seq<char>, Seq<char>)>::empty().insert(
        ("user-agent"@, "construct-engine/0.1.0"@),
    ) =~= Multiset::singleton(("user-agent"@, "construct-engine/0.1.0"@)));
}

/// Pieces of the response are joined in the order in which they come: two pieces one after the
/// other add what one piece with the bytes of both adds.
pub proof fn law_probe_joins_pieces(
    body: &mut Vec<u8>,
    chunk: &Bytes,
    body2: &mut Vec<u8>,
    chunk2: &Bytes,
)
    requires
        call_ensures(append_chunk, (body, chunk), ()),
        *body2 == *final(body),
        call_ensures(append_chunk, (body2, chunk2), ()),
    ensures
        final(body)@.len() == old(body)@.len() + bytes_content(*chunk).len(),
        final(body2)@ =~= old(body)@ + (bytes_content(*chunk) + bytes_content(*chunk2)),
{
}

} // verus!
