//! Configuration of the simple cache.

use vstd::prelude::*;

use super::{duplicate_methods, methods_view, Method, MethodView};
use crate::cli_params;
use crate::cli_params::Parser;
use crate::text::is_text;

verus! {

/// A configuration option to apply.
#[derive(Debug, Clone, PartialEq, Eq)]
pub enum Param {
    /// Methods that should be cached.
    Config(Cache),
}

/// Cache configuration
#[derive(Debug, Clone, PartialEq, Eq)]
pub struct Cache {
    /// If not enabled method definitions are ignored.
    pub enabled: bool,
    /// Per-method definitions
    pub methods: Vec<Method>,
}

/// The mathematical content of a [`Cache`].
pub struct CacheView {
    pub enabled: bool,
    pub methods: Seq<MethodView>,
}

impl View for Cache {
    type V = CacheView;

    open spec fn view(&self) -> CacheView {
        CacheView { enabled: self.enabled, methods: methods_view(self.methods@) }
    }
}

impl View for Param {
    type V = CacheView;

    open spec fn view(&self) -> CacheView {
        match self {
            Param::Config(cache) => cache@,
        }
    }
}

impl Default for Cache {
    fn default() -> (r: Self)
        ensures
            r@ == (CacheView { enabled: true, methods: Seq::empty() }),
    {
        let r = Cache { enabled: true, methods: Vec::new() };
        assert(r@.methods =~= Seq::<MethodView>::empty());
        r
    }
}

impl Cache {
    /// A copy of this configuration.
    pub fn duplicate(&self) -> (r: Cache)
        ensures
            r@ == self@,
    {
        Cache { enabled: self.enabled, methods: duplicate_methods(&self.methods) }
    }
}

/// Add methods given as the first parameter to the config in one of the
/// params: every option gets the given methods behind its own.
pub fn add_methods(params: &mut Vec<Param>, methods: Vec<Method>)
    ensures
        final(params)@.len() == old(params)@.len(),
        forall|i: int|
            0 <= i < old(params)@.len() ==> (#[trigger] final(params)@[i])@ == (CacheView {
                enabled: old(params)@[i]@.enabled,
                methods: old(params)@[i]@.methods + methods_view(methods@),
            }),
{
    let mut out: Vec<Param> = Vec::new();
    let mut i: usize = 0;
    while i < params.len()
        invariant
            i <= params.len(),
            out@.len() == i,
            forall|j: int|
                0 <= j < i ==> (#[trigger] out@[j])@ == (CacheView {
                    enabled: params@[j]@.enabled,
                    methods: params@[j]@.methods + methods_view(methods@),
                }),
        decreases params.len() - i,
    {
        match &params[i] {
            Param::Config(config) => {
                let mut extended = duplicate_methods(&config.methods);
                let mut more = duplicate_methods(&methods);
                let ghost before = extended@;
                let ghost added = more@;
                extended.append(&mut more);
                assert(methods_view(extended@) =~= methods_view(before) + methods_view(added));
                out.push(Param::Config(Cache { enabled: config.enabled, methods: extended }));
            },
        }
        i += 1;
    }
    *params = out;
}

/// What loads the configuration of the cache from a file: given a path,
/// the configuration that the file holds, or the reason why it cannot be had.
pub trait Loader {
    /// Loads the file at `path`.
    fn load(&self, path: &String) -> Result<Cache, String>;
}

/// The parser of the path of the configuration: `-` stands for the
/// default configuration, any other text for the one that the loader loads.
pub struct ConfigParser<L>(pub L);

impl<L: Loader> Parser for ConfigParser<L> {
    type Executor = Param;

    open spec fn parses(&self, value: Seq<char>, result: Result<Param, String>) -> bool {
        value == "-"@ ==> (result matches Ok(param) && param@ == (CacheView {
            enabled: true,
            methods: Seq::empty(),
        }))
    }

    fn parse(&self, value: String) -> (r: Result<Param, String>) {
        if is_text(&value, "-") {
            return Ok(Param::Config(Cache::default()));
        }
        match self.0.load(&value) {
            Ok(cache) => Ok(Param::Config(cache)),
            Err(e) => Err(e),
        }
    }
}

/// Returns a list of supported configuration parameters.
pub fn params<L: Loader>(loader: L) -> (r: Vec<cli_params::Param<ConfigParser<L>>>)
    ensures
        r@.len() == 1,
        r@[0].category@ == "Simple Cache"@,
        r@[0].name@ == "simple-cache-config"@,
        r@[0].default_value@ == "-"@,
        r@[0].parser == ConfigParser(loader),
{
    let mut out: Vec<cli_params::Param<ConfigParser<L>>> = Vec::new();
    out.push(
        cli_params::Param::new(
            "Simple Cache",
            "simple-cache-config",
            "A path to a JSON file containing a list of methods that should be cached. See examples for the file schema.",
            "-",
            ConfigParser(loader),
        ),
    );
    out
}

} // verus!
