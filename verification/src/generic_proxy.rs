//! The pipeline that every call of a client goes through: permissioning,
//! the response cache, the signing extension and the upstream transport,
//! in this order. The first that answers a call ends its way.

use vstd::prelude::*;

use crate::accounts;
use crate::accounts::{is_accounts, is_send_transaction, with_account, Intercept, Rewrite};
use crate::permissioning;
use crate::permissioning::{access, rejection, Access};
use crate::pubsub::SessionId;
use crate::rpc::{optional_output_view, Call, Output, OutputView};
use crate::simple_cache;
use crate::simple_cache::{decision, ActionView, EntryView, Digest, MethodMeta};
use crate::upstream;
use crate::upstream::{request_on, routed, surfaced, Transport};

verus! {

/// What comes with a call: the session of the client, where the transport
/// of the client has sessions.
pub type Metadata = Option<SessionId>;

/// The four middlewares of the pipeline.
pub struct Handler<T> {
    permissioning: permissioning::Middleware,
    cache: simple_cache::Middleware,
    extension: accounts::Middleware,
    upstream: upstream::Middleware<T>,
}

/// What became of a call.
pub enum Handled {
    /// The call is answered with this output, if with any.
    Done(Option<Output>),
    /// The call was rewritten by the signing extension: the caller runs the
    /// rewrite, and passes the final output to [`Handler::finish`] together
    /// with the place in the cache that waits for it.
    Compose(Rewrite, Option<(Digest, MethodMeta)>),
}

/// The place in the cache in which the response of a call is put.
pub open spec fn cache_slot(action: ActionView) -> Option<(Digest, MethodMeta)> {
    match action {
        ActionView::NextAndCache(hash, meta) => Some((hash, meta)),
        _ => None,
    }
}

/// The cache after an output was put into the place that waits for it.
pub open spec fn cache_after(
    cached: Map<Digest, EntryView>,
    slot: Option<(Digest, MethodMeta)>,
    output: Option<OutputView>,
) -> Map<Digest, EntryView> {
    match slot {
        Some((hash, meta)) => cached.insert(hash, (output, meta)),
        None => cached,
    }
}

impl<T: Transport> Handler<T> {
    /// Whether the middlewares are consistent.
    pub closed spec fn wf(&self) -> bool {
        &&& self.permissioning.wf()
        &&& self.cache.wf()
        &&& self.extension.wf()
        &&& self.upstream.wf()
    }

    /// The permissioning middleware.
    pub closed spec fn permissioning(&self) -> permissioning::Middleware {
        self.permissioning
    }

    /// The response cache.
    pub closed spec fn cache(&self) -> simple_cache::Middleware {
        self.cache
    }

    /// The signing extension.
    pub closed spec fn extension(&self) -> accounts::Middleware {
        self.extension
    }

    /// The passthrough middleware.
    pub closed spec fn upstream(&self) -> upstream::Middleware<T> {
        self.upstream
    }

    /// The pipeline of the given middlewares.
    pub fn new(
        permissioning: permissioning::Middleware,
        cache: simple_cache::Middleware,
        extension: accounts::Middleware,
        upstream: upstream::Middleware<T>,
    ) -> (r: Self)
        requires
            permissioning.wf(),
            cache.wf(),
            extension.wf(),
            upstream.wf(),
        ensures
            r.wf(),
            r.permissioning() == permissioning,
            r.cache() == cache,
            r.extension() == extension,
            r.upstream() == upstream,
    {
        Handler { permissioning, cache, extension, upstream }
    }

    /// Creates the pipeline from the transport, the signing extension and
    /// the options of the three other middlewares.
    pub fn handler(
        transport: T,
        extra: accounts::Middleware,
        cache_params: &Vec<simple_cache::config::Param>,
        permissioning_params: &Vec<permissioning::config::Param>,
        upstream_params: &Vec<upstream::config::Param>,
    ) -> (r: Self)
        requires
            extra.wf(),
        ensures
            r.wf(),
            r.extension() == extra,
            r.upstream().upstream() == transport,
            r.permissioning().base() == permissioning::last_config(
                permissioning_params@,
                permissioning_params@.len(),
            ).policy,
            r.permissioning().permissioned() == permissioning::by_name(
                permissioning::last_config(
                    permissioning_params@,
                    permissioning_params@.len(),
                ).methods,
                permissioning::last_config(
                    permissioning_params@,
                    permissioning_params@.len(),
                ).methods.len(),
            ),
            r.cache().enabled() == simple_cache::last_config(
                cache_params@,
                cache_params@.len(),
            ).enabled,
            r.cache().cacheable() == simple_cache::by_name(
                simple_cache::last_config(cache_params@, cache_params@.len()).methods,
                simple_cache::last_config(cache_params@, cache_params@.len()).methods.len(),
            ),
            r.cache().cached() == Map::<Digest, EntryView>::empty(),
            r.upstream().subscribe_methods() == upstream::by_subscribe(
                upstream::all_methods(upstream_params@, upstream_params@.len()),
                upstream::all_methods(upstream_params@, upstream_params@.len()).len(),
            ),
            r.upstream().unsubscribe_methods() == upstream::by_unsubscribe(
                upstream::all_methods(upstream_params@, upstream_params@.len()),
                upstream::all_methods(upstream_params@, upstream_params@.len()).len(),
            ),
    {
        Handler {
            permissioning: permissioning::Middleware::new(permissioning_params),
            cache: simple_cache::Middleware::new(cache_params),
            extension: extra,
            upstream: upstream::Middleware::new(transport, upstream_params),
        }
    }

    /// Sends a call through the pipeline at the time `now`.
    ///
    /// A call that is denied is answered with the rejection and goes no
    /// further. Else a call that the cache holds a fresh response for is
    /// answered with it. Else the signing extension rewrites a call to
    /// send a transaction, which ends the way of the call here; any other
    /// call is routed to the transport, whose answer is the output, with
    /// the local account in front for a call of `eth_accounts` where a key
    /// is loaded. The output is cached where the cache decided so.
    pub fn handle(&mut self, call: Call, meta: Metadata, now: u64) -> (r: Handled)
        requires
            old(self).wf(),
            old(self).extension().begun() < u64::MAX,
        ensures
            final(self).wf(),
            final(self).permissioning() == old(self).permissioning(),
            final(self).cache().enabled() == old(self).cache().enabled(),
            final(self).cache().cacheable() == old(self).cache().cacheable(),
            final(self).extension().active() == old(self).extension().active(),
            final(self).extension().local_address() == old(self).extension().local_address(),
            final(self).extension().done() == old(self).extension().done(),
            final(self).extension().in_flight() == old(self).extension().in_flight(),
            final(self).upstream().subscribe_methods() == old(self).upstream().subscribe_methods(),
            final(self).upstream().unsubscribe_methods() == old(self).upstream().unsubscribe_methods(),
            ({
                let allowed = access(
                    old(self).permissioning().base(),
                    old(self).permissioning().permissioned(),
                    call@,
                );
                let cached = decision(
                    old(self).cache().enabled(),
                    old(self).cache().cacheable(),
                    old(self).cache().cached(),
                    call@,
                    now,
                );
                let signing = old(self).extension().active();
                if allowed == Access::Deny {
                    &&& r matches Handled::Done(output)
                    &&& optional_output_view(output) == rejection(call@)
                    &&& final(self).cache().cached() == old(self).cache().cached()
                    &&& final(self).upstream().upstream() == old(self).upstream().upstream()
                    &&& final(self).extension() == old(self).extension()
                } else if cached is Return {
                    &&& r matches Handled::Done(output)
                    &&& optional_output_view(output) == cached->Return_0
                    &&& final(self).cache().cached() == old(self).cache().cached()
                    &&& final(self).upstream().upstream() == old(self).upstream().upstream()
                    &&& final(self).extension() == old(self).extension()
                } else if signing && is_send_transaction(call@) {
                    &&& r matches Handled::Compose(rewrite, slot)
                    &&& slot == cache_slot(cached)
                    &&& rewrite.compose@ == accounts::compose_call(
                        call@,
                        old(self).extension().next_id(),
                    )
                    &&& rewrite.chain_id@ == accounts::chain_id_call(
                        call@->MethodCall_jsonrpc,
                        accounts::id_after(old(self).extension().next_id()),
                    )
                    &&& rewrite.jsonrpc == call@->MethodCall_jsonrpc
                    &&& rewrite.id@ == call@->MethodCall_id
                    &&& rewrite.ticket == old(self).extension().begun()
                    &&& final(self).extension().begun() == old(self).extension().begun() + 1
                    &&& final(self).extension().next_id() == accounts::id_after(
                        accounts::id_after(old(self).extension().next_id()),
                    )
                    &&& final(self).cache().cached() == old(self).cache().cached()
                    &&& final(self).upstream().upstream() == old(self).upstream().upstream()
                } else {
                    &&& final(self).extension().begun() == old(self).extension().begun()
                    &&& final(self).extension().next_id() == old(self).extension().next_id()
                    &&& r matches Handled::Done(output)
                    &&& exists|answer: Result<Option<Output>, T::Error>|
                        #![auto]
                        old(self).upstream().upstream().answers(
                            &final(self).upstream().upstream(),
                            request_on(
                                routed(
                                    old(self).upstream().subscribe_methods(),
                                    old(self).upstream().unsubscribe_methods(),
                                    call@,
                                ),
                                call@,
                                meta,
                            ),
                            answer,
                        ) && optional_output_view(output) == if signing && is_accounts(call@) {
                            with_account(surfaced(answer), old(self).extension().local_address())
                        } else {
                            surfaced(answer)
                        }
                    &&& final(self).cache().cached() == cache_after(
                        old(self).cache().cached(),
                        cache_slot(cached),
                        optional_output_view(output),
                    )
                }
            }),
    {
        let call = match self.permissioning.decide(call) {
            permissioning::Action::Reject(output) => { return Handled::Done(output); },
            permissioning::Action::Next(call) => call,
        };
        let slot = match self.cache.decide(&call, now) {
            simple_cache::Action::Return(output) => { return Handled::Done(output); },
            simple_cache::Action::NextAndCache(hash, meta) => Some((hash, meta)),
            simple_cache::Action::Next => None,
        };
        let ghost before = self.upstream.upstream();
        let output = match self.extension.on_call(call) {
            Intercept::Compose(rewrite) => { return Handled::Compose(rewrite, slot); },
            Intercept::Forward(call) => self.upstream.on_call(call, meta),
            Intercept::Accounts(call) => {
                let answered = self.upstream.on_call(call, meta);
                self.extension.complete_accounts(answered)
            },
        };
        self.finish(slot, &output);
        Handled::Done(output)
    }

    /// Puts the final output of a call into the place of the cache that
    /// waits for it, if one does.
    pub fn finish(&mut self, slot: Option<(Digest, MethodMeta)>, output: &Option<Output>)
        requires
            old(self).wf(),
        ensures
            final(self).wf(),
            final(self).permissioning() == old(self).permissioning(),
            final(self).extension() == old(self).extension(),
            final(self).upstream() == old(self).upstream(),
            final(self).cache().enabled() == old(self).cache().enabled(),
            final(self).cache().cacheable() == old(self).cache().cacheable(),
            final(self).cache().cached() == cache_after(
                old(self).cache().cached(),
                slot,
                optional_output_view(*output),
            ),
    {
        if let Some((hash, meta)) = slot {
            self.cache.store(hash, output, meta);
        }
    }

    /// The upstream transport.
    pub fn transport(&self) -> (r: &T)
        ensures
            *r == self.upstream().upstream(),
    {
        self.upstream.transport()
    }

    /// The signing extension, to run a rewrite with.
    pub fn extension_mut(&mut self) -> (r: &mut accounts::Middleware)
        ensures
            *r == old(self).extension(),
            final(self).extension() == *final(r),
            final(self).permissioning() == old(self).permissioning(),
            final(self).cache() == old(self).cache(),
            final(self).upstream() == old(self).upstream(),
    {
        &mut self.extension
    }
}

} // verus!
