//! A cache that keeps the response of a method for good, whatever the
//! parameters of the call.

use vstd::prelude::*;

use crate::rpc::{
    duplicate_output, optional_output_view, put_under_id, under_id, Call, CallView, Output,
    OutputView, Params,
};
use crate::table::Table;
use crate::text::text;

verus! {

/// What of the parameters counts for the cache.
#[derive(Debug, Clone, Copy, PartialEq, Eq, Structural)]
pub enum ParamsCache {
    /// Parameters for the method doesn't matter. Cache only by method name.
    IgnoreParams,
}

/// A method whose responses are cached.
#[derive(Debug, Clone, PartialEq, Eq)]
pub struct Method {
    name: String,
    params: ParamsCache,
}

impl Method {
    /// The name of the method.
    pub closed spec fn spec_name(&self) -> Seq<char> {
        self.name@
    }

    /// What of the parameters counts for the cache.
    pub closed spec fn spec_params(&self) -> ParamsCache {
        self.params
    }

    /// Create new method.
    pub fn new(name: &str, params: ParamsCache) -> (r: Method)
        ensures
            r.spec_name() == name@,
            r.spec_params() == params,
    {
        Method { name: text(name), params }
    }

    /// Ignore parameters when caching.
    pub fn ignore_params(name: &str) -> (r: Method)
        ensures
            r.spec_name() == name@,
            r.spec_params() == ParamsCache::IgnoreParams,
    {
        Method::new(name, ParamsCache::IgnoreParams)
    }

    /// Returns a hash of parameters of this method: the parameters do not
    /// count, so it is the name of the method.
    pub fn hash(&self, _parameters: &Option<Params>) -> (r: String)
        ensures
            r@ == self.spec_name(),
    {
        self.name.clone()
    }
}

/// What the cache does with a call.
pub enum Action {
    /// The call goes on; its response is not cached.
    Next,
    /// The call goes on; its response is cached under the name.
    NextAndCache(String),
    /// The call is answered from the cache.
    Return(Option<Output>),
}

/// The mathematical content of an [`Action`].
pub enum ActionView {
    Next,
    NextAndCache(Seq<char>),
    Return(Option<OutputView>),
}

impl View for Action {
    type V = ActionView;

    open spec fn view(&self) -> ActionView {
        match self {
            Action::Next => ActionView::Next,
            Action::NextAndCache(name) => ActionView::NextAndCache(name@),
            Action::Return(output) => ActionView::Return(optional_output_view(*output)),
        }
    }
}

/// The first `count` methods by their name; of two with the same name the
/// later one counts.
pub open spec fn by_name(methods: Seq<Method>, count: nat) -> Map<Seq<char>, ParamsCache>
    decreases count,
{
    if count == 0 || count > methods.len() {
        Map::empty()
    } else {
        by_name(methods, (count - 1) as nat).insert(
            methods[count - 1].spec_name(),
            methods[count - 1].spec_params(),
        )
    }
}

/// What the cache does with a call: a call of a cacheable method is
/// answered from the cache once a response is there, under the id of the
/// call, and goes on to be cached before; any other call goes on.
pub open spec fn decision(
    cacheable: Map<Seq<char>, ParamsCache>,
    cached: Map<Seq<char>, Option<OutputView>>,
    call: CallView,
) -> ActionView {
    match call {
        CallView::MethodCall { method, .. } => if cacheable.contains_key(method) {
            if cached.contains_key(method) {
                ActionView::Return(under_id(cached[method], call))
            } else {
                ActionView::NextAndCache(method)
            }
        } else {
            ActionView::Next
        },
        _ => ActionView::Next,
    }
}

/// The cache by method name.
pub struct Middleware {
    cacheable: Table<String, Method>,
    cached: Table<String, Option<Output>>,
}

impl Middleware {
    /// Whether the tables are consistent: every method stands under its name.
    pub closed spec fn wf(&self) -> bool {
        &&& self.cacheable.wf()
        &&& self.cached.wf()
        &&& forall|name: Seq<char>|
            self.cacheable@.contains_key(name) ==> (#[trigger] self.cacheable@[name]).spec_name()
                == name
    }

    /// The cacheable methods by their name.
    pub closed spec fn cacheable(&self) -> Map<Seq<char>, ParamsCache> {
        self.cacheable@.map_values(|m: Method| m.spec_params())
    }

    /// The cached responses by the name of their method.
    pub closed spec fn cached(&self) -> Map<Seq<char>, Option<OutputView>> {
        self.cached@.map_values(|o: Option<Output>| optional_output_view(o))
    }

    /// Creates new caching middleware given cacheable methods definitions.
    pub fn new(methods: Vec<Method>) -> (r: Middleware)
        ensures
            r.wf(),
            r.cacheable() == by_name(methods@, methods@.len()),
            r.cached() == Map::<Seq<char>, Option<OutputView>>::empty(),
    {
        let mut cacheable: Table<String, Method> = Table::new();
        assert(cacheable@.map_values(|m: Method| m.spec_params()) =~= by_name(methods@, 0));
        let mut i: usize = 0;
        while i < methods.len()
            invariant
                i <= methods.len(),
                cacheable.wf(),
                cacheable@.map_values(|m: Method| m.spec_params()) == by_name(methods@, i as nat),
                forall|name: Seq<char>|
                    cacheable@.contains_key(name) ==> (#[trigger] cacheable@[name]).spec_name()
                        == name,
            decreases methods.len() - i,
        {
            let method = &methods[i];
            cacheable.insert(
                method.name.clone(),
                Method { name: method.name.clone(), params: method.params },
            );
            assert(cacheable@.map_values(|m: Method| m.spec_params()) =~= by_name(
                methods@,
                (i + 1) as nat,
            ));
            i += 1;
        }
        let r = Middleware { cacheable, cached: Table::new() };
        assert(r.cached() =~= Map::<Seq<char>, Option<OutputView>>::empty());
        r
    }

    /// Decides what happens to a call.
    pub fn decide(&self, call: &Call) -> (r: Action)
        requires
            self.wf(),
        ensures
            r@ == decision(self.cacheable(), self.cached(), call@),
    {
        match call {
            Call::MethodCall(inner) => match self.cacheable.get(&inner.method) {
                Some(method) => {
                    let hash = method.hash(&None);
                    match self.cached.get(&hash) {
                        Some(result) => Action::Return(put_under_id(duplicate_output(result), call)),
                        None => Action::NextAndCache(hash),
                    }
                },
                None => Action::Next,
            },
            _ => Action::Next,
        }
    }

    /// Puts a response into the cache under the name of its method.
    pub fn store(&mut self, name: String, result: &Option<Output>)
        requires
            old(self).wf(),
        ensures
            final(self).wf(),
            final(self).cacheable() == old(self).cacheable(),
            final(self).cached() == old(self).cached().insert(name@, optional_output_view(*result)),
    {
        self.cached.insert(name, duplicate_output(result));
        assert(self.cached() =~= old(self).cached().insert(name@, optional_output_view(*result)));
    }
}

} // verus!
