//! Upstream base: what every upstream transport shares.

use vstd::prelude::*;

pub mod config;
pub mod connection;
pub mod helpers;
pub mod recorder;
pub mod shared;

use self::helpers::{get_method_name, method_name};
use crate::pubsub::SessionId;
use crate::rpc::{optional_output_view, Call, CallView, Output, OutputView};
use crate::table::Table;

verus! {

/// Represents a Pub-Sub method description.
#[derive(Debug, Clone, PartialEq, Eq)]
pub struct Subscription {
    /// Subscribe method name.
    pub subscribe: String,
    /// Unsubscribe method name.
    pub unsubscribe: String,
    /// A method for notifications for that subscription.
    pub name: String,
}

/// The mathematical content of a [`Subscription`].
pub struct SubscriptionView {
    pub subscribe: Seq<char>,
    pub unsubscribe: Seq<char>,
    pub name: Seq<char>,
}

impl View for Subscription {
    type V = SubscriptionView;

    open spec fn view(&self) -> SubscriptionView {
        SubscriptionView {
            subscribe: self.subscribe@,
            unsubscribe: self.unsubscribe@,
            name: self.name@,
        }
    }
}

impl Subscription {
    /// A copy of this description.
    pub fn duplicate(&self) -> (r: Subscription)
        ensures
            r@ == self@,
    {
        Subscription {
            subscribe: self.subscribe.clone(),
            unsubscribe: self.unsubscribe.clone(),
            name: self.name.clone(),
        }
    }
}

/// The views of a list of descriptions, in order.
pub open spec fn subscriptions_view(methods: Seq<Subscription>) -> Seq<SubscriptionView> {
    Seq::new(methods.len(), |i: int| methods[i]@)
}

/// The descriptions of the first `count` options, one list after the other.
pub open spec fn all_methods(params: Seq<config::Param>, count: nat) -> Seq<SubscriptionView>
    decreases count,
{
    if count == 0 || count > params.len() {
        Seq::empty()
    } else {
        all_methods(params, (count - 1) as nat) + params[count - 1]@
    }
}

/// The first `count` descriptions by their subscribe method; of two with
/// the same method the later one counts.
pub open spec fn by_subscribe(methods: Seq<SubscriptionView>, count: nat) -> Map<
    Seq<char>,
    SubscriptionView,
>
    decreases count,
{
    if count == 0 || count > methods.len() {
        Map::empty()
    } else {
        by_subscribe(methods, (count - 1) as nat).insert(
            methods[count - 1].subscribe,
            methods[count - 1],
        )
    }
}

/// The first `count` descriptions by their unsubscribe method; of two with
/// the same method the later one counts.
pub open spec fn by_unsubscribe(methods: Seq<SubscriptionView>, count: nat) -> Map<
    Seq<char>,
    SubscriptionView,
>
    decreases count,
{
    if count == 0 || count > methods.len() {
        Map::empty()
    } else {
        by_unsubscribe(methods, (count - 1) as nat).insert(
            methods[count - 1].unsubscribe,
            methods[count - 1],
        )
    }
}

/// Where a call goes.
pub enum Route {
    /// The call starts a subscription of the given kind.
    Subscribe(Subscription),
    /// The call ends a subscription of the given kind.
    Unsubscribe(Subscription),
    /// The call is a regular call.
    Send,
}

/// The mathematical content of a [`Route`].
pub enum RouteView {
    Subscribe(SubscriptionView),
    Unsubscribe(SubscriptionView),
    Send,
}

impl View for Route {
    type V = RouteView;

    open spec fn view(&self) -> RouteView {
        match self {
            Route::Subscribe(s) => RouteView::Subscribe(s@),
            Route::Unsubscribe(s) => RouteView::Unsubscribe(s@),
            Route::Send => RouteView::Send,
        }
    }
}

/// Where a call goes, given the subscribe and the unsubscribe methods: by
/// the name of its method, a subscribe method before an unsubscribe
/// method; a call without method is a regular call.
pub open spec fn routed(
    subscribe: Map<Seq<char>, SubscriptionView>,
    unsubscribe: Map<Seq<char>, SubscriptionView>,
    call: CallView,
) -> RouteView {
    match method_name(call) {
        None => RouteView::Send,
        Some(method) => if subscribe.contains_key(method) {
            RouteView::Subscribe(subscribe[method])
        } else if unsubscribe.contains_key(method) {
            RouteView::Unsubscribe(unsubscribe[method])
        } else {
            RouteView::Send
        },
    }
}

/// A request to a transport.
pub enum Request {
    /// Start a subscription for the session.
    Subscribe(CallView, Option<SessionId>, SubscriptionView),
    /// End a subscription.
    Unsubscribe(CallView, SubscriptionView),
    /// A regular call.
    Send(CallView),
}

/// The request that a call becomes on its route.
pub open spec fn request_on(route: RouteView, call: CallView, session: Option<SessionId>) -> Request {
    match route {
        RouteView::Subscribe(s) => Request::Subscribe(call, session, s),
        RouteView::Unsubscribe(s) => Request::Unsubscribe(call, s),
        RouteView::Send => Request::Send(call),
    }
}

/// Passthrough transport.
///
/// This is an upstream transport (can do load balancing, failover or parallel requests)
pub trait Transport: Sized {
    /// Error type of the transport.
    type Error;

    /// Whether this transport may answer `answer` to `request` and be
    /// `after` afterwards.
    spec fn answers(
        &self,
        after: &Self,
        request: Request,
        answer: Result<Option<Output>, Self::Error>,
    ) -> bool;

    /// Send subscribe call upstream.
    fn subscribe(&mut self, call: Call, sink: Option<SessionId>, subscription: Subscription) -> (r:
        Result<Option<Output>, Self::Error>)
        ensures
            old(self).answers(final(self), Request::Subscribe(call@, sink, subscription@), r),
    ;

    /// Send unsubscribe call upstream.
    fn unsubscribe(&mut self, call: Call, subscription: Subscription) -> (r: Result<
        Option<Output>,
        Self::Error,
    >)
        ensures
            old(self).answers(final(self), Request::Unsubscribe(call@, subscription@), r),
    ;

    /// Send a regular call upstream.
    fn send(&mut self, call: Call) -> (r: Result<Option<Output>, Self::Error>)
        ensures
            old(self).answers(final(self), Request::Send(call@), r),
    ;
}

/// What the client sees of an answer of the transport: an error is no output.
pub open spec fn surfaced<E>(answer: Result<Option<Output>, E>) -> Option<OutputView> {
    match answer {
        Ok(output) => optional_output_view(output),
        Err(_) => None,
    }
}

/// Pass-through middleware
///
/// Delegates the calls to the upstream `Transport` - should be used as the last middleware,
/// since it never calls `next`.
pub struct Middleware<T> {
    transport: T,
    subscribe_methods: Table<String, Subscription>,
    unsubscribe_methods: Table<String, Subscription>,
}

impl<T> Middleware<T> {
    /// Whether the tables are consistent.
    pub closed spec fn wf(&self) -> bool {
        self.subscribe_methods.wf() && self.unsubscribe_methods.wf()
    }

    /// The upstream transport.
    pub closed spec fn upstream(&self) -> T {
        self.transport
    }

    /// The upstream transport.
    pub fn transport(&self) -> (r: &T)
        ensures
            *r == self.upstream(),
    {
        &self.transport
    }

    /// The subscriptions by their subscribe method.
    pub closed spec fn subscribe_methods(&self) -> Map<Seq<char>, SubscriptionView> {
        self.subscribe_methods@.map_values(|s: Subscription| s@)
    }

    /// The subscriptions by their unsubscribe method.
    pub closed spec fn unsubscribe_methods(&self) -> Map<Seq<char>, SubscriptionView> {
        self.unsubscribe_methods@.map_values(|s: Subscription| s@)
    }

    /// Create new passthrough middleware with given upstream and the list of pubsub methods.
    pub fn new(transport: T, params: &Vec<config::Param>) -> (r: Self)
        ensures
            r.wf(),
            r.upstream() == transport,
            r.subscribe_methods() == by_subscribe(
                all_methods(params@, params@.len()),
                all_methods(params@, params@.len()).len(),
            ),
            r.unsubscribe_methods() == by_unsubscribe(
                all_methods(params@, params@.len()),
                all_methods(params@, params@.len()).len(),
            ),
    {
        let mut subscribe_methods: Table<String, Subscription> = Table::new();
        let mut unsubscribe_methods: Table<String, Subscription> = Table::new();
        let ghost mut seen: Seq<SubscriptionView> = Seq::empty();
        assert(subscribe_methods@.map_values(|s: Subscription| s@) =~= by_subscribe(seen, 0));
        assert(unsubscribe_methods@.map_values(|s: Subscription| s@) =~= by_unsubscribe(seen, 0));
        let mut i: usize = 0;
        while i < params.len()
            invariant
                i <= params.len(),
                subscribe_methods.wf(),
                unsubscribe_methods.wf(),
                seen == all_methods(params@, i as nat),
                subscribe_methods@.map_values(|s: Subscription| s@) == by_subscribe(
                    seen,
                    seen.len(),
                ),
                unsubscribe_methods@.map_values(|s: Subscription| s@) == by_unsubscribe(
                    seen,
                    seen.len(),
                ),
            decreases params.len() - i,
        {
            match &params[i] {
                config::Param::PubSubMethods(methods) => {
                    let ghost start = seen;
                    let mut j: usize = 0;
                    while j < methods.len()
                        invariant
                            j <= methods.len(),
                            subscribe_methods.wf(),
                            unsubscribe_methods.wf(),
                            seen == start + subscriptions_view(methods@).subrange(0, j as int),
                            subscribe_methods@.map_values(|s: Subscription| s@) == by_subscribe(
                                seen,
                                seen.len(),
                            ),
                            unsubscribe_methods@.map_values(|s: Subscription| s@)
                                == by_unsubscribe(seen, seen.len()),
                        decreases methods.len() - j,
                    {
                        let s = &methods[j];
                        let ghost before = seen;
                        proof {
                            seen = seen.push(s@);
                            assert(seen.drop_last() =~= before);
                            assert(seen =~= start + subscriptions_view(methods@).subrange(
                                0,
                                j as int + 1,
                            ));
                            lemma_by_method_prefix(seen, before);
                        }
                        subscribe_methods.insert(s.subscribe.clone(), s.duplicate());
                        unsubscribe_methods.insert(s.unsubscribe.clone(), s.duplicate());
                        assert(subscribe_methods@.map_values(|s: Subscription| s@) =~= by_subscribe(
                            seen,
                            seen.len(),
                        ));
                        assert(unsubscribe_methods@.map_values(|s: Subscription| s@)
                            =~= by_unsubscribe(seen, seen.len()));
                        j += 1;
                    }
                    assert(subscriptions_view(methods@).subrange(0, methods@.len() as int)
                        =~= subscriptions_view(methods@));
                },
            }
            i += 1;
        }
        Middleware { transport, subscribe_methods, unsubscribe_methods }
    }

    /// Where a call goes.
    pub fn route(&self, call: &Call) -> (r: Route)
        requires
            self.wf(),
        ensures
            r@ == routed(self.subscribe_methods(), self.unsubscribe_methods(), call@),
    {
        match get_method_name(call) {
            None => Route::Send,
            Some(method) => match self.subscribe_methods.get(method) {
                Some(subscription) => Route::Subscribe(subscription.duplicate()),
                None => match self.unsubscribe_methods.get(method) {
                    Some(subscription) => Route::Unsubscribe(subscription.duplicate()),
                    None => Route::Send,
                },
            },
        }
    }
}

impl<T: Transport> Middleware<T> {
    /// Routes a call to the transport and gives what the transport
    /// answers; an error of the transport is surfaced as no output.
    pub fn on_call(&mut self, request: Call, meta: Option<SessionId>) -> (r: Option<Output>)
        requires
            old(self).wf(),
        ensures
            final(self).wf(),
            final(self).subscribe_methods() == old(self).subscribe_methods(),
            final(self).unsubscribe_methods() == old(self).unsubscribe_methods(),
            exists|answer: Result<Option<Output>, T::Error>|
                #![auto]
                old(self).upstream().answers(
                    &final(self).upstream(),
                    request_on(
                        routed(
                            old(self).subscribe_methods(),
                            old(self).unsubscribe_methods(),
                            request@,
                        ),
                        request@,
                        meta,
                    ),
                    answer,
                ) && optional_output_view(r) == surfaced(answer),
    {
        let answer = match self.route(&request) {
            Route::Subscribe(subscription) => self.transport.subscribe(request, meta, subscription),
            Route::Unsubscribe(subscription) => self.transport.unsubscribe(request, subscription),
            Route::Send => self.transport.send(request),
        };
        let ghost witness = answer;
        let r = match answer {
            Ok(output) => output,
            Err(_) => None,
        };
        assert(old(self).upstream().answers(
            &self.upstream(),
            request_on(
                routed(old(self).subscribe_methods(), old(self).unsubscribe_methods(), request@),
                request@,
                meta,
            ),
            witness,
        ) && optional_output_view(r) == surfaced(witness));
        r
    }
}

/// Tables over a list of descriptions extend those over the list without its last.
pub proof fn lemma_by_method_prefix(methods: Seq<SubscriptionView>, shorter: Seq<SubscriptionView>)
    requires
        methods.len() == shorter.len() + 1,
        methods.drop_last() == shorter,
    ensures
        by_subscribe(methods, methods.len()) == by_subscribe(shorter, shorter.len()).insert(
            methods.last().subscribe,
            methods.last(),
        ),
        by_unsubscribe(methods, methods.len()) == by_unsubscribe(shorter, shorter.len()).insert(
            methods.last().unsubscribe,
            methods.last(),
        ),
{
    lemma_by_method_agree(methods, shorter, shorter.len());
}

/// Tables over the first descriptions do not depend on the later ones.
pub proof fn lemma_by_method_agree(
    methods: Seq<SubscriptionView>,
    shorter: Seq<SubscriptionView>,
    count: nat,
)
    requires
        count <= shorter.len() <= methods.len(),
        forall|i: int| 0 <= i < shorter.len() ==> methods[i] == shorter[i],
    ensures
        by_subscribe(methods, count) == by_subscribe(shorter, count),
        by_unsubscribe(methods, count) == by_unsubscribe(shorter, count),
    decreases count,
{
    if count > 0 {
        lemma_by_method_agree(methods, shorter, (count - 1) as nat);
    }
}

} // verus!
