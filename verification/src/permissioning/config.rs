//! Configuration of permissioning.

use vstd::prelude::*;

use super::{Access, Permissioning, PermissioningView};
use crate::cli_params;
use crate::cli_params::Parser;
use crate::text::is_text;

verus! {

/// A configuration option to apply.
#[derive(Debug, Clone, PartialEq, Eq)]
pub enum Param {
    /// Permissioning configuration
    Config(Permissioning),
}

impl View for Param {
    type V = PermissioningView;

    open spec fn view(&self) -> PermissioningView {
        match self {
            Param::Config(config) => config@,
        }
    }
}

/// What loads the configuration of permissioning from a file: given a
/// path, the configuration that the file holds, or the reason why it
/// cannot be had.
pub trait Loader {
    /// Loads the file at `path`.
    fn load(&self, path: &String) -> Result<Permissioning, String>;
}

/// The parser of the path of the configuration: `-` stands for the
/// default configuration, any other text for the one that the loader loads.
pub struct ConfigParser<L>(pub L);

impl<L: Loader> Parser for ConfigParser<L> {
    type Executor = Param;

    open spec fn parses(&self, value: Seq<char>, result: Result<Param, String>) -> bool {
        value == "-"@ ==> (result matches Ok(param) && param@ == (PermissioningView {
            policy: Access::Allow,
            methods: Seq::empty(),
        }))
    }

    fn parse(&self, value: String) -> (r: Result<Param, String>) {
        if is_text(&value, "-") {
            return Ok(Param::Config(Permissioning::default()));
        }
        match self.0.load(&value) {
            Ok(config) => Ok(Param::Config(config)),
            Err(e) => Err(e),
        }
    }
}

/// Returns a list of supported configuration parameters.
pub fn params<L: Loader>(loader: L) -> (r: Vec<cli_params::Param<ConfigParser<L>>>)
    ensures
        r@.len() == 1,
        r@[0].category@ == "Permissioning"@,
        r@[0].name@ == "permissioning-config"@,
        r@[0].default_value@ == "-"@,
        r@[0].parser == ConfigParser(loader),
{
    let mut out: Vec<cli_params::Param<ConfigParser<L>>> = Vec::new();
    out.push(
        cli_params::Param::new(
            "Permissioning",
            "permissioning-config",
            "A path to a JSON file containing a list of methods that should be permissioned. See examples for the file schema.",
            "-",
            ConfigParser(loader),
        ),
    );
    out
}

} // verus!
