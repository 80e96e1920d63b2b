//! WebSocket upstream configuration parameters.

use vstd::prelude::*;

use super::address::{parse_url, parsed_url};
use crate::cli_params;
use crate::cli_params::Parser;
use crate::text::{join, read};

verus! {

/// Configuration options of the WS upstream
pub enum Param {
    /// Upstream URL
    Url(url::Url),
}

/// The option that a text gives as the upstream address: that for the
/// address which the text names, or an error that says why it names none.
pub open spec fn url_param(text: Seq<char>) -> Result<Param, Seq<char>> {
    match parsed_url(text) {
        Ok(url) => Ok(Param::Url(url)),
        Err(reason) => Err("Invalid upstream address: "@ + reason),
    }
}

/// The parser of the upstream address: a text that names an address gives
/// the option for that address, any other text an error.
pub struct UrlParser;

impl Parser for UrlParser {
    type Executor = Param;

    open spec fn parses(&self, value: Seq<char>, result: Result<Param, String>) -> bool {
        read(result) == url_param(value)
    }

    fn parse(&self, value: String) -> (r: Result<Param, String>) {
        match parse_url(value.as_str()) {
            Ok(url) => Ok(Param::Url(url)),
            Err(e) => Err(join("Invalid upstream address: ", e.as_str())),
        }
    }
}

/// Returns all configuration parameters for WS upstream.
pub fn params() -> (r: Vec<cli_params::Param<UrlParser>>)
    ensures
        r@.len() == 1,
        r@[0].category@ == "WebSockets upstream"@,
        r@[0].name@ == "upstream-ws"@,
        r@[0].description@
            == "Address of the parent WebSockets RPC server that we should connect to."@,
        r@[0].default_value@ == "ws://127.0.0.1:9944"@,
{
    let mut out: Vec<cli_params::Param<UrlParser>> = Vec::new();
    out.push(
        cli_params::Param::new(
            "WebSockets upstream",
            "upstream-ws",
            "Address of the parent WebSockets RPC server that we should connect to.",
            "ws://127.0.0.1:9944",
            UrlParser,
        ),
    );
    out
}

} // verus!
