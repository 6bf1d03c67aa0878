//! Connectivity probe: one GET request over QUIC and HTTP/3.

use bytes::Bytes;
use vstd::multiset::Multiset;
use vstd::prelude::*;
use vstd::string::*;

use crate::buffers::{as_slice, bytes_content};
use crate::http_types::{
    error_text, is_header_value, is_plain_header_name, new_builder, parsed_uri, request_parts,
    with_empty_body, with_header, with_method, with_uri,
};
use crate::text::{decimal, decimal_text, parse_unsigned, unsigned_number};

verus! {

/// What the probe asks for.
#[derive(Debug)]
pub struct ProbeTarget {
    pub host: String,
    pub path: String,
    pub port: u16,
}

/// The text of an argument, or a default when it is missing.
pub open spec fn arg_or(args: Seq<String>, i: int, default_text: Seq<char>) -> Seq<char> {
    if i < args.len() {
        args[i]@
    } else {
        default_text
    }
}

/// The port in the fourth argument; 443 when it is missing or no port number.
pub open spec fn port_arg(args: Seq<String>) -> nat {
    if args.len() > 3 {
        match unsigned_number(args[3]@, 65535) {
            Some(n) => n,
            None => 443,
        }
    } else {
        443
    }
}

/// Reads the command line: program name, host, path and port, all but the first optional.
pub fn parse_args(args: &[String]) -> (target: ProbeTarget)
    ensures
        target.host@ == arg_or(args@, 1, "cloudflare.com"@),
        target.path@ == arg_or(args@, 2, "/cdn-cgi/trace"@),
        target.port == port_arg(args@),
{
    let host = if args.len() > 1 {
        args[1].clone()
    } else {
        String::from_str("cloudflare.com")
    };
    let path = if args.len() > 2 {
        args[2].clone()
    } else {
        String::from_str("/cdn-cgi/trace")
    };
    let port: u16 = if args.len() > 3 {
        match parse_unsigned(args[3].as_str(), 65535) {
            Some(n) => n as u16,
            None => 443,
        }
    } else {
        443
    };
    ProbeTarget { host, path, port }
}

impl ProbeTarget {
    /// The URI of the request. It does not name the port.
    pub open spec fn uri(self) -> Seq<char> {
        "https://"@ + self.host@ + self.path@
    }

    /// The `host:port` to resolve.
    pub fn host_port(&self) -> (s: String)
        ensures
            s@ == self.host@ + ":"@ + decimal(self.port as nat),
    {
        self.host.clone().concat(":").concat(decimal_text(self.port as u64).as_str())
    }

    /// The first of the addresses that the host resolves to.
    pub fn pick_address(&self, addresses: Vec<String>) -> (r: Result<String, String>)
        ensures
            if addresses@.len() > 0 {
                r == Ok::<String, String>(addresses@[0])
            } else {
                r matches Err(e) && e@ == "DNS resolve failed for "@ + self.host@
            },
    {
        if addresses.len() > 0 {
            Ok(addresses[0].clone())
        } else {
            Err(String::from_str("DNS resolve failed for ").concat(self.host.as_str()))
        }
    }

    /// Builds the GET request, or says in the HTTP library's words why the URI is no URI.
    pub fn request(&self) -> (r: Result<http::Request<()>, String>)
        ensures
            match r {
                Ok(req) => {
                    &&& parsed_uri(self.uri()) is Ok
                    &&& request_parts(req) == (
                        "GET"@,
                        parsed_uri(self.uri())->Ok_0,
                        Multiset::<(Seq<char>, Seq<char>)>::empty().insert(
                            ("user-agent"@, "construct-engine/0.1.0"@),
                        ),
                    )
                },
                Err(e) => parsed_uri(self.uri()) == Err::<Seq<char>, Seq<char>>(e@),
            },
    {
        proof {
            reveal_strlit("user-agent");
            reveal_strlit("construct-engine/0.1.0");
            assert(is_plain_header_name("user-agent"@));
            assert(is_header_value("construct-engine/0.1.0"@));
        }
        let uri = String::from_str("https://").concat(self.host.as_str()).concat(
            self.path.as_str(),
        );
        let b = with_method(new_builder(), "GET");
        let b = with_uri(b, uri.as_str());
        let b = with_header(b, "user-agent", "construct-engine/0.1.0");
        match with_empty_body(b) {
            Ok(req) => Ok(req),
            Err(e) => Err(error_text(&e)),
        }
    }
}

/// Adds a piece of the response to the body.
pub fn append_chunk(body: &mut Vec<u8>, chunk: &Bytes)
    ensures
        final(body)@ == old(body)@ + bytes_content(*chunk),
{
    let data = as_slice(chunk);
    let ghost before = body@;
    let mut i: usize = 0;
    assert(before + data@.take(0) =~= before);
    while i < data.len()
        invariant
            0 <= i <= data@.len(),
            body@ == before + data@.take(i as int),
        decreases data@.len() - i,
    {
        body.push(data[i]);
        i = i + 1;
        assert(data@.take(i as int) =~= data@.take(i - 1).push(data@[i - 1]));
        assert(body@ =~= before + data@.take(i as int));
    }
    assert(data@.take(i as int) =~= data@);
}

} // verus!
