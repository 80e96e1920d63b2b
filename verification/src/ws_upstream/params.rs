//! WebSocket upstream configuration parameters, with the address as the
//! `websocket` crate reads it.

use vstd::prelude::*;

use crate::cli_params::{Param, Parser};
use crate::text::{join, read};

verus! {

#[verifier::external_type_specification]
#[verifier::external_body]
pub struct ExSocketUrl(websocket::url::Url);

/// Configuration options of the WS upstream
pub enum Configuration {
    /// Upstream URL
    Url(websocket::url::Url),
}

/// What `websocket::url::Url::parse` gives for a text: the address that
/// the text names, or the debug form of the error.
pub uninterp spec fn parsed_socket_url(text: Seq<char>) -> Result<websocket::url::Url, Seq<char>>;

/// `websocket::url::Url::parse`: the address that a text names, or the
/// debug form of the reason why it names none.
#[verifier::external_body]
pub(crate) fn parse_socket_url(value: &str) -> (r: Result<websocket::url::Url, String>)
    ensures
        read(r) == parsed_socket_url(value@),
{
    websocket::url::Url::parse(value).map_err(|e| format!("{:?}", e))
}

/// The option that a text gives as the upstream address: that for the
/// address which the text names, or an error that says why it names none.
pub open spec fn configuration(text: Seq<char>) -> Result<Configuration, Seq<char>> {
    match parsed_socket_url(text) {
        Ok(url) => Ok(Configuration::Url(url)),
        Err(reason) => Err("Invalid upstream address: "@ + reason),
    }
}

/// The parser of the upstream address.
pub struct AddressParser;

impl Parser for AddressParser {
    type Executor = Configuration;

    open spec fn parses(&self, value: Seq<char>, result: Result<Configuration, String>) -> bool {
        read(result) == configuration(value)
    }

    fn parse(&self, value: String) -> (r: Result<Configuration, String>) {
        match parse_socket_url(value.as_str()) {
            Ok(url) => Ok(Configuration::Url(url)),
            Err(e) => Err(join("Invalid upstream address: ", e.as_str())),
        }
    }
}

/// Returns all configuration parameters for WS upstream.
pub fn all() -> (r: Vec<Param<AddressParser>>)
    ensures
        r@.len() == 1,
        r@[0].category@ == "WebSockets upstream"@,
        r@[0].name@ == "upstream-ws"@,
        r@[0].description@
            == "Address of the parent WebSockets RPC server that we should connect to."@,
        r@[0].default_value@ == "127.0.0.1:9944"@,
{
    let mut out: Vec<Param<AddressParser>> = Vec::new();
    out.push(
        Param::new(
            "WebSockets upstream",
            "upstream-ws",
            "Address of the parent WebSockets RPC server that we should connect to.",
            "127.0.0.1:9944",
            AddressParser,
        ),
    );
    out
}

} // verus!
