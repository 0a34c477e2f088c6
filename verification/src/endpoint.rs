//! The endpoint at which the backend serves its API.

use crate::config::{
    api_port, api_port_in, decimal_bytes, lemma_plain_config_sets_port, plain_config,
};
use crate::json::is_document;
use vstd::prelude::*;
use vstd::string::{StringExecFns, StringSliceAdditionalSpecFns};

verus! {

/// The port that the backend listens on where the configuration sets none.
pub const DEFAULT_API_PORT: u16 = 8080;

/// Where the backend serves its API: always on this machine, at `port`.
#[derive(Clone, Copy, Debug, PartialEq, Eq, Structural)]
pub struct ApiEndpoint {
    pub port: u16,
}

/// A number in decimal digits, without leading zeros.
pub open spec fn decimal_text(n: nat) -> Seq<char> {
    decimal_bytes(n).map_values(|b: u8| b as char)
}

/// The URL of an endpoint.
pub open spec fn url_text(endpoint: ApiEndpoint) -> Seq<char> {
    "http://localhost:"@ + decimal_text(endpoint.port as nat)
}

/// The endpoint for a configuration text, or for none: the port that the
/// text sets, else the default port.
pub open spec fn endpoint_for(config: Option<Seq<u8>>) -> ApiEndpoint {
    match config {
        Some(text) => match api_port_in(text) {
            Some(port) => ApiEndpoint { port },
            None => ApiEndpoint { port: DEFAULT_API_PORT },
        },
        None => ApiEndpoint { port: DEFAULT_API_PORT },
    }
}

/// The bytes of a configuration text, if there is one.
pub open spec fn bytes_of(config: Option<&str>) -> Option<Seq<u8>> {
    match config {
        Some(text) => Some(text.spec_bytes()),
        None => None,
    }
}

fn digit_text(d: u16) -> (text: &'static str)
    requires
        d < 10,
    ensures
        text@ == seq![((0x30 + d) as u8) as char],
{
    proof {
        reveal_strlit("0");
        reveal_strlit("1");
        reveal_strlit("2");
        reveal_strlit("3");
        reveal_strlit("4");
        reveal_strlit("5");
        reveal_strlit("6");
        reveal_strlit("7");
        reveal_strlit("8");
        reveal_strlit("9");
    }
    let text = match d {
        0 => "0",
        1 => "1",
        2 => "2",
        3 => "3",
        4 => "4",
        5 => "5",
        6 => "6",
        7 => "7",
        8 => "8",
        _ => "9",
    };
    assert(text@ =~= seq![((0x30 + d) as u8) as char]);
    text
}

fn append_decimal(out: &mut String, n: u16)
    ensures
        final(out)@ == old(out)@ + decimal_text(n as nat),
    decreases n,
{
    if n < 10 {
        out.append(digit_text(n));
        assert(out@ =~= old(out)@ + decimal_text(n as nat));
    } else {
        append_decimal(out, n / 10);
        out.append(digit_text(n % 10));
        assert(out@ =~= old(out)@ + decimal_text(n as nat));
    }
}

impl ApiEndpoint {
    /// The host part of the endpoint.
    pub fn host(&self) -> (name: &'static str)
        ensures
            name@ == "localhost"@,
    {
        "localhost"
    }

    /// The URL of the endpoint.
    pub fn url(&self) -> (url: String)
        ensures
            url@ == url_text(*self),
    {
        let mut url = String::from_str("http://localhost:");
        append_decimal(&mut url, self.port);
        url
    }
}

/// The endpoint that a configuration text names.  `None` stands for a
/// configuration that is missing or could not be read.  Whatever is wrong
/// with the text, the answer is an endpoint: the default one.
pub fn resolve_api_endpoint(config: Option<&str>) -> (endpoint: ApiEndpoint)
    ensures
        endpoint == endpoint_for(bytes_of(config)),
{
    match config {
        Some(text) => match api_port(text.as_bytes()) {
            Some(port) => ApiEndpoint { port },
            None => ApiEndpoint { port: DEFAULT_API_PORT },
        },
        None => ApiEndpoint { port: DEFAULT_API_PORT },
    }
}

/// The URL at which the front end reaches the backend.
pub fn get_api_url(config: Option<&str>) -> (url: String)
    ensures
        url@ == url_text(endpoint_for(bytes_of(config))),
{
    resolve_api_endpoint(config).url()
}

/// Without a configuration, with a text that is no well-formed document,
/// and with one that sets no port, the endpoint is the default one,
/// `http://localhost:8080`.
pub proof fn lemma_default_endpoint(text: Seq<u8>)
    ensures
        endpoint_for(None) == (ApiEndpoint { port: DEFAULT_API_PORT }),
        !is_document(text) ==> endpoint_for(Some(text)) == (ApiEndpoint {
            port: DEFAULT_API_PORT,
        }),
        api_port_in(text) is None ==> endpoint_for(Some(text)) == (ApiEndpoint {
            port: DEFAULT_API_PORT,
        }),
        url_text(ApiEndpoint { port: DEFAULT_API_PORT }) == "http://localhost:8080"@,
{
    reveal_strlit("http://localhost:");
    reveal_strlit("http://localhost:8080");
    reveal_with_fuel(decimal_bytes, 4);
    assert(decimal_text(8080) =~= seq!['8', '0', '8', '0']);
    assert(url_text(ApiEndpoint { port: DEFAULT_API_PORT }) =~= "http://localhost:8080"@);
}

/// A port that the configuration sets is the one in the endpoint.
pub proof fn lemma_configured_port_is_used(text: Seq<u8>, port: u16)
    requires
        api_port_in(text) == Some(port),
    ensures
        endpoint_for(Some(text)) == (ApiEndpoint { port }),
        1 <= port,
{
}

/// The plain text `{"ports":{"api":N}}` sets the port `N`, so its URL
/// ends in `N`; for 9090 that is `http://localhost:9090`.
pub proof fn lemma_plain_config_url(port: u16)
    requires
        port >= 1,
    ensures
        endpoint_for(Some(plain_config(port))) == (ApiEndpoint { port }),
        url_text(endpoint_for(Some(plain_config(port)))) == "http://localhost:"@ + decimal_text(
            port as nat,
        ),
        url_text(ApiEndpoint { port: 9090 }) == "http://localhost:9090"@,
{
    lemma_plain_config_sets_port(port);
    reveal_strlit("http://localhost:");
    reveal_strlit("http://localhost:9090");
    reveal_with_fuel(decimal_bytes, 4);
    assert(decimal_text(9090) =~= seq!['9', '0', '9', '0']);
    assert(url_text(ApiEndpoint { port: 9090 }) =~= "http://localhost:9090"@);
}

} // verus!
