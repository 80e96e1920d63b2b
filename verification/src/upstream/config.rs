//! Upstream configuration parameters.

use vstd::prelude::*;

use super::{subscriptions_view, Subscription, SubscriptionView};
use crate::cli_params;
use crate::cli_params::Parser;
use crate::text::is_text;

verus! {

/// Configuration options of an upstream
#[derive(Debug, Clone, PartialEq, Eq)]
pub enum Param {
    /// PublishSubscribe methods
    PubSubMethods(Vec<Subscription>),
}

impl View for Param {
    type V = Seq<SubscriptionView>;

    open spec fn view(&self) -> Seq<SubscriptionView> {
        match self {
            Param::PubSubMethods(methods) => subscriptions_view(methods@),
        }
    }
}

/// A copy of a list of descriptions.
pub fn duplicate_subscriptions(methods: &Vec<Subscription>) -> (r: Vec<Subscription>)
    ensures
        subscriptions_view(r@) == subscriptions_view(methods@),
{
    let mut out: Vec<Subscription> = Vec::new();
    let mut i: usize = 0;
    while i < methods.len()
        invariant
            i <= methods.len(),
            out@.len() == i,
            forall|j: int| 0 <= j < i ==> out@[j]@ == methods@[j]@,
        decreases methods.len() - i,
    {
        out.push(methods[i].duplicate());
        i += 1;
    }
    assert(subscriptions_view(out@) =~= subscriptions_view(methods@));
    out
}

/// Adds pubsub methods definitions to the existing parameter: every
/// option gets the given descriptions behind its own.
pub fn add_subscriptions(params: &mut Vec<Param>, methods: Vec<Subscription>)
    ensures
        final(params)@.len() == old(params)@.len(),
        forall|i: int|
            0 <= i < old(params)@.len() ==> (#[trigger] final(params)@[i])@ == old(params)@[i]@
                + subscriptions_view(methods@),
{
    let mut out: Vec<Param> = Vec::new();
    let mut i: usize = 0;
    while i < params.len()
        invariant
            i <= params.len(),
            out@.len() == i,
            forall|j: int|
                0 <= j < i ==> (#[trigger] out@[j])@ == params@[j]@ + subscriptions_view(methods@),
        decreases params.len() - i,
    {
        match &params[i] {
            Param::PubSubMethods(own) => {
                let mut extended = duplicate_subscriptions(own);
                let mut more = duplicate_subscriptions(&methods);
                let ghost before = extended@;
                let ghost added = more@;
                extended.append(&mut more);
                assert(subscriptions_view(extended@) =~= subscriptions_view(before)
                    + subscriptions_view(added));
                out.push(Param::PubSubMethods(extended));
            },
        }
        i += 1;
    }
    *params = out;
}

/// What loads the configuration of the upstream from a file: given a
/// path, the pub-sub methods that the file lists, or the reason why they
/// cannot be had.
pub trait Loader {
    /// Loads the file at `path`.
    fn load(&self, path: &String) -> Result<Vec<Subscription>, String>;
}

/// The parser of the path of the configuration: `-` stands for no
/// pub-sub methods, any other text for those that the loader loads.
pub struct ConfigParser<L>(pub L);

impl<L: Loader> Parser for ConfigParser<L> {
    type Executor = Param;

    open spec fn parses(&self, value: Seq<char>, result: Result<Param, String>) -> bool {
        value == "-"@ ==> (result matches Ok(param) && param@.len() == 0)
    }

    fn parse(&self, value: String) -> (r: Result<Param, String>) {
        if is_text(&value, "-") {
            let none: Vec<Subscription> = Vec::new();
            return Ok(Param::PubSubMethods(none));
        }
        match self.0.load(&value) {
            Ok(methods) => Ok(Param::PubSubMethods(methods)),
            Err(e) => Err(e),
        }
    }
}

/// Returns all configuration parameters of the upstream.
pub fn params<L: Loader>(loader: L) -> (r: Vec<cli_params::Param<ConfigParser<L>>>)
    ensures
        r@.len() == 1,
        r@[0].category@ == "Upstream configuration"@,
        r@[0].name@ == "upstream-config"@,
        r@[0].default_value@ == "-"@,
        r@[0].parser == ConfigParser(loader),
{
    let mut out: Vec<cli_params::Param<ConfigParser<L>>> = Vec::new();
    out.push(
        cli_params::Param::new(
            "Upstream configuration",
            "upstream-config",
            "Configuration of the upstream. Should contain a list of supported pub-sub methods.",
            "-",
            ConfigParser(loader),
        ),
    );
    out
}

} // verus!
