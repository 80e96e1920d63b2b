//! The plain proxy: a cache by method name in front of the upstream transport.

use vstd::prelude::*;

pub mod caching;
pub mod passthrough;

use crate::pubsub::SessionId;
use crate::rpc::{optional_output_view, Call, Output};
use crate::text::text;
use crate::upstream;
use crate::upstream::{request_on, routed, surfaced, Subscription, Transport};

verus! {

/// What comes with a call: the session of the client, where there is one.
pub type Metadata = Option<SessionId>;

/// The two middlewares of the plain proxy.
pub struct Handler<T> {
    caching: caching::Middleware,
    passthrough: upstream::Middleware<T>,
}

impl<T: Transport> Handler<T> {
    /// Whether the middlewares are consistent.
    pub closed spec fn wf(&self) -> bool {
        self.caching.wf() && self.passthrough.wf()
    }

    /// The cache.
    pub closed spec fn caching(&self) -> caching::Middleware {
        self.caching
    }

    /// The passthrough middleware.
    pub closed spec fn passthrough(&self) -> upstream::Middleware<T> {
        self.passthrough
    }

    /// Sends a call through the proxy: a call that the cache holds a
    /// response for is answered with it, any other by the transport.
    pub fn handle(&mut self, call: Call, meta: Metadata) -> (r: Option<Output>)
        requires
            old(self).wf(),
        ensures
            final(self).wf(),
            final(self).caching().cacheable() == old(self).caching().cacheable(),
            match caching::decision(
                old(self).caching().cacheable(),
                old(self).caching().cached(),
                call@,
            ) {
                caching::ActionView::Return(output) => optional_output_view(r) == output && final(self).caching().cached() == old(self).caching().cached() && final(self).passthrough().upstream() == old(self).passthrough().upstream(),
                action => {
                    &&& exists|answer: Result<Option<Output>, T::Error>|
                        #![auto]
                        old(self).passthrough().upstream().answers(
                            &final(self).passthrough().upstream(),
                            request_on(
                                routed(
                                    old(self).passthrough().subscribe_methods(),
                                    old(self).passthrough().unsubscribe_methods(),
                                    call@,
                                ),
                                call@,
                                meta,
                            ),
                            answer,
                        ) && optional_output_view(r) == surfaced(answer)
                    &&& final(self).caching().cached() == match action {
                        caching::ActionView::NextAndCache(name) => old(self).caching().cached().insert(name, optional_output_view(r)),
                        _ => old(self).caching().cached(),
                    }
                },
            },
    {
        match self.caching.decide(&call) {
            caching::Action::Return(output) => output,
            caching::Action::Next => self.passthrough.on_call(call, meta),
            caching::Action::NextAndCache(name) => {
                let output = self.passthrough.on_call(call, meta);
                self.caching.store(name, &output);
                output
            },
        }
    }
}

/// The plain proxy over a transport: nothing is cached, and the storage
/// subscription of the state is the one subscription.
pub fn handler<T: Transport>(transport: T) -> (r: Handler<T>)
    ensures
        r.wf(),
        r.passthrough().upstream() == transport,
        r.caching().cached() == Map::<Seq<char>, Option<crate::rpc::OutputView>>::empty(),
        r.caching().cacheable() == Map::<Seq<char>, caching::ParamsCache>::empty(),
{
    let mut methods: Vec<Subscription> = Vec::new();
    methods.push(
        Subscription {
            subscribe: text("state_subscribeStorage"),
            unsubscribe: text("state_unsubscribeStorage"),
            name: text("state_storage"),
        },
    );
    let mut params: Vec<upstream::config::Param> = Vec::new();
    params.push(upstream::config::Param::PubSubMethods(methods));
    Handler {
        caching: caching::Middleware::new(Vec::new()),
        passthrough: upstream::Middleware::new(transport, &params),
    }
}

} // verus!
