//! A simplistic RPC cache.
//!
//! Caches the result of calling the RPC method and clears it
//! depending on the cache eviction policy.
//!
//! The cache is keyed by a digest of the method name and the parameters of
//! a call. An entry is fresh until its deadline; a stale entry is
//! overwritten by the next response for the same key. A cached response
//! answers a call under the id of that call. Time comes from the caller,
//! as nanoseconds on a clock that does not go back.

use vstd::prelude::*;
use vstd::string::StringSliceAdditionalSpecFns;

pub mod config;
pub mod digest;
pub mod store;

use self::digest::{xxhash64, xxhash64_digest};
use crate::canonical::{
    distinct_keys, lemma_text_does_not_depend_on_order, params_json, params_text, write_bytes,
};
use crate::rpc::{
    duplicate_output, optional_output_view, put_under_id, under_id, Call, CallView, Output,
    OutputView, Params, ParamsView, ValueView,
};
use crate::table::Table;
use crate::text::text;

verus! {

/// The digest by which responses are found again.
pub type Digest = u64;

/// A span of time: whole seconds and the nanoseconds of a part of a second.
#[derive(Debug, Clone, Copy, PartialEq, Eq, Structural)]
pub struct Duration {
    secs: u64,
    nanos: u32,
}

impl Duration {
    /// The span in nanoseconds.
    pub closed spec fn spec_nanos(&self) -> nat {
        self.secs as nat * 1_000_000_000 + self.nanos as nat
    }

    /// A span of `secs` seconds and `nanos` nanoseconds; a thousand million
    /// nanoseconds or more carry over into the seconds, up to the largest span.
    pub fn new(secs: u64, nanos: u32) -> (r: Duration)
        ensures
            r.spec_nanos() == if secs as nat * 1_000_000_000 + nanos as nat <= u64::MAX as nat
                * 1_000_000_000 + 999_999_999 {
                secs as nat * 1_000_000_000 + nanos as nat
            } else {
                u64::MAX as nat * 1_000_000_000 + 999_999_999
            },
    {
        let carry = (nanos / 1_000_000_000) as u64;
        let rest = nanos % 1_000_000_000;
        if secs <= u64::MAX - carry {
            Duration { secs: secs + carry, nanos: rest }
        } else {
            Duration { secs: u64::MAX, nanos: 999_999_999 }
        }
    }

    /// A span of whole seconds.
    pub fn from_secs(secs: u64) -> (r: Duration)
        ensures
            r.spec_nanos() == secs as nat * 1_000_000_000,
    {
        Duration { secs, nanos: 0 }
    }

    /// A span of whole milliseconds.
    pub fn from_millis(millis: u64) -> (r: Duration)
        ensures
            r.spec_nanos() == millis as nat * 1_000_000,
    {
        Duration { secs: millis / 1000, nanos: ((millis % 1000) * 1_000_000) as u32 }
    }

    /// The span in nanoseconds.
    pub fn as_nanos(&self) -> (r: u128)
        ensures
            r == self.spec_nanos(),
    {
        self.secs as u128 * 1_000_000_000 + self.nanos as u128
    }
}

/// Cache eviction policy
#[derive(Debug, Clone, Copy, PartialEq, Eq, Structural)]
pub enum CacheEviction {
    /// Time-based caching. The cache entry is discarded after given amount of time.
    Time(Duration),
}

/// Method metadata
#[derive(Debug, Clone, Copy, PartialEq, Eq, Structural)]
pub enum MethodMeta {
    /// The time from which on the entry is stale.
    Deadline(u128),
}

/// Represents a cacheable method.
///
/// Should know how to compute a hash that is used to compare requests.
#[derive(Debug, Clone, PartialEq, Eq)]
pub struct Method {
    name: String,
    eviction: CacheEviction,
}

/// The mathematical content of a [`Method`].
pub struct MethodView {
    pub name: Seq<char>,
    pub eviction: CacheEviction,
}

impl View for Method {
    type V = MethodView;

    closed spec fn view(&self) -> MethodView {
        MethodView { name: self.name@, eviction: self.eviction }
    }
}

/// The views of a list of methods, in order.
pub open spec fn methods_view(methods: Seq<Method>) -> Seq<MethodView> {
    Seq::new(methods.len(), |i: int| methods[i]@)
}

/// A copy of a list of methods.
pub fn duplicate_methods(methods: &Vec<Method>) -> (r: Vec<Method>)
    ensures
        methods_view(r@) == methods_view(methods@),
{
    let mut out: Vec<Method> = Vec::new();
    let mut i: usize = 0;
    while i < methods.len()
        invariant
            i <= methods.len(),
            out@.len() == i,
            forall|j: int| 0 <= j < i ==> out@[j]@ == methods@[j]@,
        decreases methods.len() - i,
    {
        out.push(methods[i].duplicate());
        i += 1;
    }
    assert(methods_view(out@) =~= methods_view(methods@));
    out
}

/// The bytes that are hashed for a call: the name of the method, a byte
/// that no name holds, and the canonical text of the parameters.
pub open spec fn key_bytes(name: Seq<char>, params: ParamsView) -> Seq<u8> {
    vstd::utf8::encode_utf8(name) + seq![0xffu8] + params_json(params)
}

/// The digest of a call of the method `name` with the given parameters.
pub open spec fn call_digest(name: Seq<char>, params: ParamsView) -> Digest {
    xxhash64_digest(key_bytes(name, params))
}

/// The deadline of an entry that is made at `now` under the given policy.
pub open spec fn deadline(eviction: CacheEviction, now: u64) -> MethodMeta {
    match eviction {
        CacheEviction::Time(duration) => MethodMeta::Deadline(
            (now as nat + duration.spec_nanos()) as u128,
        ),
    }
}

/// Whether an entry is fresh at `now`.
pub open spec fn fresh(meta: MethodMeta, now: u64) -> bool {
    match meta {
        MethodMeta::Deadline(deadline) => (now as u128) < deadline,
    }
}

impl Method {
    /// Create new method.
    pub fn new(name: &str, eviction: CacheEviction) -> (r: Method)
        ensures
            r@ == (MethodView { name: name@, eviction }),
    {
        Method { name: text(name), eviction }
    }

    /// A copy of this method.
    pub fn duplicate(&self) -> (r: Method)
        ensures
            r@ == self@,
    {
        Method { name: self.name.clone(), eviction: self.eviction }
    }

    /// The name of the method.
    pub fn name(&self) -> (r: &String)
        ensures
            r@ == self@.name,
    {
        &self.name
    }

    /// Returns a hash of parameters of this method.
    pub fn hash(&self, parameters: &Params) -> (r: Digest)
        ensures
            r == call_digest(self@.name, parameters@),
    {
        let mut bytes: Vec<u8> = Vec::new();
        write_bytes(&mut bytes, self.name.as_str().as_bytes());
        bytes.push(0xff);
        let params = params_text(parameters);
        write_bytes(&mut bytes, params.as_slice());
        assert(bytes@ =~= key_bytes(self@.name, parameters@));
        xxhash64(bytes.as_slice())
    }

    /// Generates metadata that should be stored in the cache together with the value.
    pub fn meta(&self, now: u64) -> (r: MethodMeta)
        ensures
            r == deadline(self@.eviction, now),
    {
        match self.eviction {
            CacheEviction::Time(duration) => {
                assert(duration.spec_nanos() <= u64::MAX as nat * 1_000_000_000 + 4_294_967_295)
                    by (nonlinear_arith)
                    requires
                        duration.spec_nanos() == duration.secs as nat * 1_000_000_000
                            + duration.nanos as nat,
                ;
                MethodMeta::Deadline(now as u128 + duration.as_nanos())
            },
        }
    }

    /// Determines if the cached result is still ok to use.
    pub fn is_fresh(&self, meta: &MethodMeta, now: u64) -> (r: bool)
        ensures
            r == fresh(*meta, now),
    {
        match *meta {
            MethodMeta::Deadline(deadline) => (now as u128) < deadline,
        }
    }
}

/// What the cache holds under a digest: a response and the metadata of the entry.
pub type Entry = (Option<Output>, MethodMeta);

/// The mathematical content of an [`Entry`].
pub type EntryView = (Option<OutputView>, MethodMeta);

/// The view of an entry.
pub open spec fn entry_view(entry: Entry) -> EntryView {
    (optional_output_view(entry.0), entry.1)
}

/// What the cache does with a call.
pub enum Action {
    /// The call goes on; its response is not cached.
    Next,
    /// The call goes on; its response is cached under the digest, with the metadata.
    NextAndCache(Digest, MethodMeta),
    /// The call is answered from the cache.
    Return(Option<Output>),
}

/// The mathematical content of an [`Action`].
pub enum ActionView {
    Next,
    NextAndCache(Digest, MethodMeta),
    Return(Option<OutputView>),
}

impl View for Action {
    type V = ActionView;

    open spec fn view(&self) -> ActionView {
        match self {
            Action::Next => ActionView::Next,
            Action::NextAndCache(hash, meta) => ActionView::NextAndCache(*hash, *meta),
            Action::Return(output) => ActionView::Return(optional_output_view(*output)),
        }
    }
}

/// The configuration that counts among the first `count` options: the last
/// one, or the default where there is none.
pub open spec fn last_config(params: Seq<config::Param>, count: nat) -> config::CacheView {
    if count == 0 || count > params.len() {
        config::CacheView { enabled: true, methods: Seq::empty() }
    } else {
        params[count - 1]@
    }
}

/// The first `count` methods by their name; of two with the same name the
/// later one counts.
pub open spec fn by_name(methods: Seq<MethodView>, count: nat) -> Map<Seq<char>, MethodView>
    decreases count,
{
    if count == 0 || count > methods.len() {
        Map::empty()
    } else {
        by_name(methods, (count - 1) as nat).insert(methods[count - 1].name, methods[count - 1])
    }
}

/// What the cache does with a call at the time `now`.
///
/// A call goes on uncached where the cache is disabled, where it is no
/// method call, or where its method is not cacheable. A call of a
/// cacheable method is answered from the cache where the entry under its
/// digest is fresh, with the cached response under the id of the call;
/// else it goes on and its response is cached.
pub open spec fn decision(
    enabled: bool,
    cacheable: Map<Seq<char>, MethodView>,
    cached: Map<Digest, EntryView>,
    call: CallView,
    now: u64,
) -> ActionView {
    if !enabled {
        ActionView::Next
    } else {
        match call {
            CallView::MethodCall { method, params, .. } => if cacheable.contains_key(method) {
                let hash = call_digest(cacheable[method].name, params);
                if cached.contains_key(hash) && fresh(cached[hash].1, now) {
                    ActionView::Return(under_id(cached[hash].0, call))
                } else {
                    ActionView::NextAndCache(hash, deadline(cacheable[method].eviction, now))
                }
            } else {
                ActionView::Next
            },
            _ => ActionView::Next,
        }
    }
}

/// Simple single-level caching middleware.
///
/// Takes a list of cacheable methods as a parameter. Can construct multiple caches
/// for single method, based on the parameters.
pub struct Middleware {
    enabled: bool,
    cacheable: Table<String, Method>,
    cached: fnv::FnvHashMap<Digest, Entry>,
}

impl Middleware {
    /// Whether the table of methods is consistent.
    pub closed spec fn wf(&self) -> bool {
        self.cacheable.wf()
    }

    /// Whether the cache is enabled.
    pub closed spec fn enabled(&self) -> bool {
        self.enabled
    }

    /// The cacheable methods by their name.
    pub closed spec fn cacheable(&self) -> Map<Seq<char>, MethodView> {
        self.cacheable@.map_values(|m: Method| m@)
    }

    /// The cached responses by the digest of their call.
    pub closed spec fn cached(&self) -> Map<Digest, EntryView> {
        self.cached@.map_values(|e: Entry| entry_view(e))
    }

    /// Creates new caching middleware given cacheable methods definitions.
    ///
    /// The last configuration among the options counts; without one the
    /// cache is enabled and has no methods.
    pub fn new(params: &Vec<config::Param>) -> (r: Middleware)
        ensures
            r.wf(),
            r.enabled() == last_config(params@, params@.len()).enabled,
            r.cacheable() == by_name(
                last_config(params@, params@.len()).methods,
                last_config(params@, params@.len()).methods.len(),
            ),
            r.cached() == Map::<Digest, EntryView>::empty(),
    {
        let mut cacheable: Table<String, Method> = Table::new();
        let cached: fnv::FnvHashMap<Digest, Entry> = store::empty();
        let mut enabled = true;
        if params.len() > 0 {
            match &params[params.len() - 1] {
                config::Param::Config(cache) => {
                    enabled = cache.enabled;
                    let ghost all = methods_view(cache.methods@);
                    assert(cacheable@.map_values(|m: Method| m@) =~= by_name(all, 0));
                    let mut i: usize = 0;
                    while i < cache.methods.len()
                        invariant
                            i <= cache.methods.len(),
                            cacheable.wf(),
                            all == methods_view(cache.methods@),
                            cacheable@.map_values(|m: Method| m@) == by_name(all, i as nat),
                        decreases cache.methods.len() - i,
                    {
                        let method = &cache.methods[i];
                        cacheable.insert(method.name.clone(), method.duplicate());
                        assert(cacheable@.map_values(|m: Method| m@) =~= by_name(
                            all,
                            (i + 1) as nat,
                        ));
                        i += 1;
                    }
                },
            }
        } else {
            assert(cacheable@.map_values(|m: Method| m@) =~= by_name(
                Seq::<MethodView>::empty(),
                0,
            ));
        }
        let r = Middleware { enabled, cacheable, cached };
        assert(r.cached() =~= Map::<Digest, EntryView>::empty());
        r
    }

    /// Decides what happens to a call at the time `now`.
    pub fn decide(&self, call: &Call, now: u64) -> (r: Action)
        requires
            self.wf(),
        ensures
            r@ == decision(self.enabled(), self.cacheable(), self.cached(), call@, now),
    {
        if !self.enabled {
            return Action::Next;
        }
        match call {
            Call::MethodCall(inner) => match self.cacheable.get(&inner.method) {
                Some(method) => {
                    let hash = method.hash(&inner.params);
                    match store::get(&self.cached, hash) {
                        Some(entry) => {
                            if method.is_fresh(&entry.1, now) {
                                Action::Return(put_under_id(duplicate_output(&entry.0), call))
                            } else {
                                Action::NextAndCache(hash, method.meta(now))
                            }
                        },
                        None => Action::NextAndCache(hash, method.meta(now)),
                    }
                },
                None => Action::Next,
            },
            _ => Action::Next,
        }
    }

    /// Puts a response into the cache under a digest, in the place of any
    /// response that was there.
    pub fn store(&mut self, hash: Digest, result: &Option<Output>, meta: MethodMeta)
        requires
            old(self).wf(),
        ensures
            final(self).wf(),
            final(self).enabled() == old(self).enabled(),
            final(self).cacheable() == old(self).cacheable(),
            final(self).cached() == old(self).cached().insert(
                hash,
                (optional_output_view(*result), meta),
            ),
    {
        store::insert(&mut self.cached, hash, (duplicate_output(result), meta));
        assert(self.cached() =~= old(self).cached().insert(
            hash,
            (optional_output_view(*result), meta),
        ));
    }

    /// Handles a call at the time `now`: a call that the cache answers
    /// does not go on; else `next` answers it, and the answer is cached
    /// where the decision asks for it.
    pub fn on_call<M, F: FnOnce(Call, M) -> Option<Output>>(
        &mut self,
        call: Call,
        meta: M,
        now: u64,
        next: F,
    ) -> (r: Option<Output>)
        requires
            old(self).wf(),
            next.requires((call, meta)),
        ensures
            final(self).wf(),
            final(self).enabled() == old(self).enabled(),
            final(self).cacheable() == old(self).cacheable(),
            match decision(
                old(self).enabled(),
                old(self).cacheable(),
                old(self).cached(),
                call@,
                now,
            ) {
                ActionView::Next => next.ensures((call, meta), r) && final(self).cached() == old(self).cached(),
                ActionView::NextAndCache(hash, deadline) => next.ensures((call, meta), r) && final(self).cached() == old(self).cached().insert(hash, (optional_output_view(r), deadline)),
                ActionView::Return(output) => optional_output_view(r) == output && final(self).cached() == old(self).cached(),
            },
    {
        match self.decide(&call, now) {
            Action::Next => next(call, meta),
            Action::NextAndCache(hash, method_meta) => {
                let result = next(call, meta);
                self.store(hash, &result, method_meta);
                result
            },
            Action::Return(result) => result,
        }
    }
}

/// A response that was cached is served while its deadline has not come:
/// a call of the same method with the same parameters, made before the
/// window has passed, is answered from the cache with the response that
/// was stored, under its own id.
pub proof fn lemma_cache_hit(
    cacheable: Map<Seq<char>, MethodView>,
    cached: Map<Digest, EntryView>,
    call: CallView,
    again: CallView,
    response: Option<OutputView>,
    first: u64,
    second: u64,
)
    requires
        decision(true, cacheable, cached, call, first) is NextAndCache,
        again is MethodCall,
        again->MethodCall_method == call->MethodCall_method,
        again->MethodCall_params == call->MethodCall_params,
        first <= second,
        fresh(decision(true, cacheable, cached, call, first)->NextAndCache_1, second),
    ensures
        ({
            let made = decision(true, cacheable, cached, call, first);
            let after = cached.insert(made->NextAndCache_0, (response, made->NextAndCache_1));
            decision(true, cacheable, after, again, second) == ActionView::Return(
                under_id(response, again),
            )
        }),
{
}

/// A call whose digest has no entry goes on to upstream, whatever other
/// calls were cached: so does the same method with other parameters, as
/// long as the digests of the two calls differ.
pub proof fn lemma_cache_miss(
    cacheable: Map<Seq<char>, MethodView>,
    cached: Map<Digest, EntryView>,
    call: CallView,
    now: u64,
)
    requires
        call is MethodCall,
        cacheable.contains_key(call->MethodCall_method),
        !cached.contains_key(
            call_digest(cacheable[call->MethodCall_method].name, call->MethodCall_params),
        ),
    ensures
        decision(true, cacheable, cached, call, now) is NextAndCache,
{
}

/// Once the window has passed the entry is stale: the same call goes on
/// to upstream again, and its response takes the place of the old one.
pub proof fn lemma_cache_expiry(
    cacheable: Map<Seq<char>, MethodView>,
    cached: Map<Digest, EntryView>,
    call: CallView,
    response: Option<OutputView>,
    first: u64,
    second: u64,
)
    requires
        decision(true, cacheable, cached, call, first) is NextAndCache,
        !fresh(decision(true, cacheable, cached, call, first)->NextAndCache_1, second),
    ensures
        ({
            let made = decision(true, cacheable, cached, call, first);
            let after = cached.insert(made->NextAndCache_0, (response, made->NextAndCache_1));
            decision(true, cacheable, after, call, second) is NextAndCache
        }),
{
}

/// An entry made at `first` for a window of `window` nanoseconds is fresh
/// at `second` exactly while `second` is less than `first + window`.
pub proof fn lemma_window(duration: Duration, first: u64, second: u64)
    ensures
        fresh(deadline(CacheEviction::Time(duration), first), second) <==> (second as nat)
            < first as nat + duration.spec_nanos(),
{
    assert(duration.spec_nanos() <= u64::MAX as nat * 1_000_000_000 + 4_294_967_295)
        by (nonlinear_arith)
        requires
            duration.spec_nanos() == duration.secs as nat * 1_000_000_000 + duration.nanos as nat,
    ;
}

/// The digest of a call with named parameters does not depend on the
/// order in which the parameters are listed.
pub proof fn lemma_digest_does_not_depend_on_order(
    name: Seq<char>,
    one: Seq<(Seq<char>, ValueView)>,
    other: Seq<(Seq<char>, ValueView)>,
)
    requires
        one.len() <= usize::MAX,
        other.len() <= usize::MAX,
        distinct_keys(one),
        distinct_keys(other),
        forall|member: (Seq<char>, ValueView)| one.contains(member) <==> other.contains(member),
    ensures
        call_digest(name, ParamsView::Named(one)) == call_digest(name, ParamsView::Named(other)),
{
    lemma_text_does_not_depend_on_order(one, other);
}

/// A disabled cache lets every call go on.
pub proof fn lemma_disabled(
    cacheable: Map<Seq<char>, MethodView>,
    cached: Map<Digest, EntryView>,
    call: CallView,
    now: u64,
)
    ensures
        decision(false, cacheable, cached, call, now) is Next,
{
}

} // verus!
