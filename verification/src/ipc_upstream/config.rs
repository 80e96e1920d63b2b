//! IPC upstream configuration parameters.

use vstd::prelude::*;

use crate::cli_params;
use crate::cli_params::Parser;

verus! {

/// Configuration options of the IPC upstream
#[derive(Debug, Clone, PartialEq, Eq)]
pub enum Param {
    /// Upstream URL
    Path(String),
}

/// The parser of the path of the socket: every text is a path.
pub struct PathParser;

impl Parser for PathParser {
    type Executor = Param;

    open spec fn parses(&self, value: Seq<char>, result: Result<Param, String>) -> bool {
        result matches Ok(Param::Path(path)) && path@ == value
    }

    fn parse(&self, value: String) -> (r: Result<Param, String>) {
        Ok(Param::Path(value))
    }
}

/// Returns all configuration parameters for IPC upstream.
pub fn params() -> (r: Vec<cli_params::Param<PathParser>>)
    ensures
        r@.len() == 1,
        r@[0].category@ == "IPC upstream"@,
        r@[0].name@ == "upstream-ipc"@,
        r@[0].description@ == "Path to the IPC socket we should connect to."@,
        r@[0].default_value@ == "/var/tmp/parity.ipc"@,
{
    let mut out: Vec<cli_params::Param<PathParser>> = Vec::new();
    out.push(
        cli_params::Param::new(
            "IPC upstream",
            "upstream-ipc",
            "Path to the IPC socket we should connect to.",
            "/var/tmp/parity.ipc",
            PathParser,
        ),
    );
    out
}

} // verus!
