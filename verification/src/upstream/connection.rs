//! One connection to upstream, shared by every caller.
//!
//! Requests of many callers go out over one connection. A response is
//! matched to its request by the request id alone; a notification is
//! matched to a session by its subscription id. The connection decides;
//! the caller reads and writes the frames, keeps the sinks and tells the
//! connection when a client session opens and closes.

use vstd::prelude::*;

use super::helpers::{
    call_id, get_id, get_unsubscribe_id, notification_subscription, peek_id, peek_result,
    peek_subscription_id, unsubscribe_id,
};
use super::shared::{
    handle_after, hooks_view, sink_under, Hook, HookView, Notified, Pending, PendingKind,
    PendingKindView, PendingView, Shared,
};
use super::Subscription;
use crate::pubsub::{
    parsed_subscription_id, subscription_id_value, SessionId, SubscriptionId, SubscriptionIdView,
};
use crate::rpc::{
    Call, CallView, Id, IdView, MethodCall, Notification, Params, ParamsView, Success, Value,
    Version,
};
use crate::table::Key;

verus! {

/// The id that the requests made by the connection itself start from.
pub const FIRST_REQUEST_ID: u64 = 1;

/// A frame that arrived from upstream: its text, and what the text reads
/// as when it is taken for a notification, for a call and for a
/// successful response.
pub struct Frame {
    /// The text of the frame.
    pub text: String,
    /// The frame read as a notification.
    pub notification: Option<Notification>,
    /// The frame read as a call.
    pub call: Option<Call>,
    /// The frame read as a successful response.
    pub success: Option<Success>,
}

/// A request that is to be written to upstream.
pub struct Sent {
    /// The call to write.
    pub write: Call,
    /// The handle on which the response will arrive; none for a call without id.
    pub receiver: Option<u64>,
    /// The sink of a request that was pending under the same id, which
    /// will never get a response now.
    pub abandoned: Option<u64>,
}

/// Why a call could not be sent as a subscription.
#[derive(Debug, Clone, Copy, PartialEq, Eq, Structural)]
pub enum SubscribeError {
    /// The call came without a client session.
    NoSession,
}

/// What became of a frame from upstream.
pub enum Dispatched {
    /// The frame is a notification for a subscription.
    Notification(Notified),
    /// The frame answers a pending request: it goes to the sink of the
    /// request. Where it answers a subscribe request of a session that is
    /// gone, the subscription is cancelled at once by the given request.
    Response { sink: u64, frame: String, cancel: Option<Sent> },
    /// The frame answers a request that is not pending: it is dropped.
    UnknownRequest,
    /// The frame is neither: it is dropped.
    Unexpected,
}

/// The state of a connection.
pub struct State {
    /// The id that the next request of the connection itself gets.
    pub id: u64,
    /// The handle that the next sink gets.
    pub next_sink: u64,
    /// The requests that await a response.
    pub pending: Map<IdView, PendingView>,
    /// The sessions of the subscriptions.
    pub subscriptions: Map<SubscriptionIdView, SessionId>,
    /// The live sessions with their hooks.
    pub sessions: Map<u64, Seq<HookView>>,
}

/// The state after a call was sent as a request of the given kind.
pub open spec fn after_send(state: State, call: CallView, kind: PendingKindView) -> State {
    match call_id(call) {
        None => state,
        Some(id) => State {
            pending: state.pending.insert(id, PendingView { sink: state.next_sink, kind }),
            next_sink: handle_after(state.next_sink),
            ..state
        },
    }
}

/// The receiver that sending a call gives.
pub open spec fn receiver_of(state: State, call: CallView) -> Option<u64> {
    match call_id(call) {
        None => None,
        Some(_) => Some(state.next_sink),
    }
}

/// The sink that sending a call abandons.
pub open spec fn abandoned_by(state: State, call: CallView) -> Option<u64> {
    match call_id(call) {
        None => None,
        Some(id) => sink_under(state.pending, id),
    }
}

/// The state after an unsubscribe call was sent: the subscription that the
/// call names is forgotten, and the call is pending as a regular request.
pub open spec fn after_unsubscribe(state: State, call: CallView) -> State {
    let forgotten = match unsubscribe_id(call) {
        Some(id) => State { subscriptions: state.subscriptions.remove(id), ..state },
        None => state,
    };
    after_send(forgotten, call, PendingKindView::Regular)
}

/// The call by which the connection itself unsubscribes.
pub open spec fn unsubscribe_call(method: Seq<char>, id: u64, subscription: SubscriptionIdView) -> CallView {
    CallView::MethodCall {
        jsonrpc: Some(Version::V2),
        method,
        params: ParamsView::Positional(seq![subscription_id_value(subscription)]),
        id: IdView::Num(id),
    }
}

/// The call that a hook makes when the connection's next id is `id`.
pub open spec fn hook_call(hook: HookView, id: u64) -> CallView {
    unsubscribe_call(hook.unsubscribe.unsubscribe, id, hook.subscription)
}

/// The state after a hook has run.
pub open spec fn after_hook(state: State, hook: HookView) -> State {
    after_unsubscribe(State { id: handle_after(state.id), ..state }, hook_call(hook, state.id))
}

/// The state after the first `count` of the given hooks have run, in their order.
pub open spec fn after_hooks(state: State, hooks: Seq<HookView>, count: nat) -> State
    decreases count,
{
    if count == 0 || count > hooks.len() {
        state
    } else {
        after_hook(after_hooks(state, hooks, (count - 1) as nat), hooks[count - 1])
    }
}

/// The id that the connection has when the first `count` hooks have run.
pub open spec fn id_after_hooks(id: u64, count: nat) -> u64
    decreases count,
{
    if count == 0 {
        id
    } else {
        handle_after(id_after_hooks(id, (count - 1) as nat))
    }
}

/// A connection to upstream.
pub struct Connection {
    id: u64,
    shared: Shared,
}

impl Connection {
    /// Whether the tables of the connection are consistent.
    pub closed spec fn wf(&self) -> bool {
        self.shared.wf()
    }

    /// The state of the connection.
    pub closed spec fn state(&self) -> State {
        State {
            id: self.id,
            next_sink: self.shared.next_sink(),
            pending: self.shared.pending(),
            subscriptions: self.shared.subscriptions(),
            sessions: self.shared.sessions(),
        }
    }

    /// A connection without requests, subscriptions or sessions.
    pub fn new() -> (r: Connection)
        ensures
            r.wf(),
            r.state() == (State {
                id: FIRST_REQUEST_ID,
                next_sink: 0,
                pending: Map::empty(),
                subscriptions: Map::empty(),
                sessions: Map::empty(),
            }),
    {
        Connection { id: FIRST_REQUEST_ID, shared: Shared::new() }
    }

    /// Send a regular call upstream: it is pending under its id until the
    /// response arrives, and is to be written.
    pub fn send(&mut self, call: Call) -> (r: Sent)
        requires
            old(self).wf(),
        ensures
            final(self).wf(),
            final(self).state() == after_send(old(self).state(), call@, PendingKindView::Regular),
            r.write == call,
            r.receiver == receiver_of(old(self).state(), call@),
            r.abandoned == abandoned_by(old(self).state(), call@),
    {
        let added = self.shared.add_pending(get_id(&call), PendingKind::Regular);
        Sent { write: call, receiver: added.receiver, abandoned: added.abandoned }
    }

    /// Send subscribe call upstream.
    ///
    /// Without a session this is an error and nothing changes. Else the
    /// call is pending as a subscribe request of the session, so that the
    /// subscription is registered when the response arrives.
    pub fn subscribe(&mut self, call: Call, session: Option<SessionId>, subscription: Subscription) -> (r:
        Result<Sent, SubscribeError>)
        requires
            old(self).wf(),
        ensures
            final(self).wf(),
            match session {
                None => r == Err::<Sent, SubscribeError>(SubscribeError::NoSession) && final(self).state() == old(self).state(),
                Some(session) => {
                    &&& r matches Ok(sent)
                    &&& sent.write == call
                    &&& sent.receiver == receiver_of(old(self).state(), call@)
                    &&& sent.abandoned == abandoned_by(old(self).state(), call@)
                    &&& final(self).state() == after_send(
                        old(self).state(),
                        call@,
                        PendingKindView::Subscribe(session, subscription@),
                    )
                },
            },
    {
        let session = match session {
            Some(session) => session,
            None => { return Err(SubscribeError::NoSession); },
        };
        let added = self.shared.add_pending(
            get_id(&call),
            PendingKind::Subscribe(session, subscription),
        );
        Ok(Sent { write: call, receiver: added.receiver, abandoned: added.abandoned })
    }

    /// Send unsubscribe call upstream.
    ///
    /// The subscription that the call names by its first parameter is
    /// forgotten; then the call is sent as a regular call.
    pub fn unsubscribe(&mut self, call: Call, subscription: Subscription) -> (r: Sent)
        requires
            old(self).wf(),
        ensures
            final(self).wf(),
            final(self).state() == after_unsubscribe(old(self).state(), call@),
            r.write == call,
            r.receiver == receiver_of(old(self).state(), call@),
            r.abandoned == abandoned_by(old(self).state(), call@),
    {
        if let Some(subscription_id) = get_unsubscribe_id(&call) {
            self.shared.remove_subscription(&subscription_id);
        }
        self.send(call)
    }

    /// Runs a hook: unsubscribes from its subscription by a call under a fresh id.
    pub fn run_hook(&mut self, hook: &Hook) -> (r: Sent)
        requires
            old(self).wf(),
        ensures
            final(self).wf(),
            final(self).state() == after_hook(old(self).state(), hook@),
            r.write@ == hook_call(hook@, old(self).state().id),
    {
        let id = self.id;
        self.id = if id == u64::MAX {
            0
        } else {
            id + 1
        };
        let mut params: Vec<Value> = Vec::new();
        params.push(hook.subscription.duplicate().into_value());
        let call = Call::MethodCall(
            MethodCall {
                jsonrpc: Some(Version::V2),
                method: hook.unsubscribe.unsubscribe.clone(),
                params: Params::Positional(params),
                id: Id::Num(id),
            },
        );
        assert(call@->MethodCall_params->Positional_0 =~= seq![
            subscription_id_value(hook.subscription@),
        ]);
        self.unsubscribe(call, hook.unsubscribe.duplicate())
    }

    /// Makes a client session live; one that is live already does not change.
    pub fn open_session(&mut self, session: SessionId) -> (opened: bool)
        requires
            old(self).wf(),
        ensures
            final(self).wf(),
            opened == !old(self).state().sessions.contains_key(session.0),
            final(self).state() == if opened {
                State {
                    sessions: old(self).state().sessions.insert(session.0, Seq::empty()),
                    ..old(self).state()
                }
            } else {
                old(self).state()
            },
    {
        self.shared.open_session(session)
    }

    /// Drops a client session: each of its hooks runs once, in the order
    /// in which they were attached, and the requests by which they
    /// unsubscribe are to be written.
    pub fn close_session(&mut self, session: SessionId) -> (r: Vec<Sent>)
        requires
            old(self).wf(),
        ensures
            final(self).wf(),
            ({
                let hooks = if old(self).state().sessions.contains_key(session.0) {
                    old(self).state().sessions[session.0]
                } else {
                    Seq::empty()
                };
                let closed = State {
                    sessions: old(self).state().sessions.remove(session.0),
                    ..old(self).state()
                };
                &&& final(self).state() == after_hooks(closed, hooks, hooks.len())
                &&& r@.len() == hooks.len()
                &&& forall|i: int|
                    0 <= i < hooks.len() ==> (#[trigger] r@[i]).write@ == hook_call(
                        hooks[i],
                        id_after_hooks(old(self).state().id, i as nat),
                    )
            }),
    {
        let hooks = self.shared.close_session(session);
        let ghost closed = self.state();
        let mut out: Vec<Sent> = Vec::new();
        let mut i: usize = 0;
        while i < hooks.len()
            invariant
                i <= hooks.len(),
                self.wf(),
                out@.len() == i,
                self.state() == after_hooks(closed, hooks_view(hooks@), i as nat),
                self.state().id == id_after_hooks(closed.id, i as nat),
                forall|j: int|
                    0 <= j < i ==> (#[trigger] out@[j]).write@ == hook_call(
                        hooks@[j]@,
                        id_after_hooks(closed.id, j as nat),
                    ),
            decreases hooks.len() - i,
        {
            let sent = self.run_hook(&hooks[i]);
            out.push(sent);
            i += 1;
        }
        out
    }

    /// Handles a frame from upstream.
    ///
    /// A frame that carries a subscription id is a notification: it goes to
    /// the session of the subscription. Else a frame that carries the id of
    /// a pending request is its response: the request is pending no longer,
    /// the subscription that a subscribe request asked for is registered
    /// under the id that the response gives, and the frame goes to the sink
    /// of the request. Any other frame is dropped.
    pub fn process_frame(&mut self, frame: Frame) -> (r: Dispatched)
        requires
            old(self).wf(),
        ensures
            final(self).wf(),
            final(self).state() == after_frame(old(self).state(), frame),
            dispatches(old(self).state(), frame, r),
    {
        if let Some(id) = peek_subscription_id(&frame.notification) {
            return Dispatched::Notification(self.shared.notify_subscription(&id, frame.text));
        }
        let id = match peek_id(&frame.call) {
            Some(id) => id,
            None => { return Dispatched::Unexpected; },
        };
        let pending = match self.shared.remove_pending(&id) {
            Some(pending) => pending,
            None => {
                assert(self.state().pending =~= old(self).state().pending);
                return Dispatched::UnknownRequest;
            },
        };
        let mut cancel: Option<Sent> = None;
        match pending.kind {
            PendingKind::Regular => {},
            PendingKind::Subscribe(session, unsubscribe) => {
                let subscription_id = match peek_result(&frame.success) {
                    Some(result) => SubscriptionId::parse_value(&result),
                    None => None,
                };
                if let Some(subscription_id) = subscription_id {
                    if self.shared.has_session(session) {
                        self.shared.add_subscription(subscription_id, session, unsubscribe);
                    } else {
                        let hook = Hook { subscription: subscription_id, unsubscribe };
                        cancel = Some(self.run_hook(&hook));
                    }
                }
            },
        }
        Dispatched::Response { sink: pending.sink, frame: frame.text, cancel }
    }

    /// Abandons every pending request, as when the connection to upstream
    /// is torn down: the sinks of the requests will get no response.
    pub fn disconnect(&mut self) -> (r: Vec<(Id, Pending)>)
        requires
            old(self).wf(),
        ensures
            final(self).wf(),
            final(self).state() == (State { pending: Map::empty(), ..old(self).state() }),
            crate::table::distinct(r@),
            crate::table::as_map(r@).map_values(|p: Pending| p@) == old(self).state().pending,
    {
        self.shared.abandon_pending()
    }
}

/// The subscription id that a frame carries as a notification.
pub open spec fn frame_subscription(frame: Frame) -> Option<SubscriptionIdView> {
    match frame.notification {
        Some(n) => notification_subscription(n@),
        None => None,
    }
}

/// The request id that a frame carries.
pub open spec fn frame_id(frame: Frame) -> Option<IdView> {
    match frame.call {
        Some(c) => call_id(c@),
        None => None,
    }
}

/// The subscription id that a frame gives as the result of a subscribe request.
pub open spec fn frame_result_id(frame: Frame) -> Option<SubscriptionIdView> {
    match frame.success {
        Some(s) => parsed_subscription_id(s.result@),
        None => None,
    }
}

/// The pending request that a frame answers, if it is a response to one.
pub open spec fn frame_request(state: State, frame: Frame) -> Option<PendingView> {
    if frame_subscription(frame) is Some {
        None
    } else {
        match frame_id(frame) {
            Some(id) => if state.pending.contains_key(id) {
                Some(state.pending[id])
            } else {
                None
            },
            None => None,
        }
    }
}

/// What becomes of a notification for the given subscription.
pub open spec fn notified(state: State, id: SubscriptionIdView, text: String) -> Notified {
    if !state.subscriptions.contains_key(id) {
        Notified::Unknown
    } else if !state.sessions.contains_key(state.subscriptions[id].0) {
        Notified::SessionGone
    } else {
        Notified::Deliver(state.subscriptions[id], text)
    }
}

/// The subscription that a frame establishes, with its session: the frame
/// answers a pending subscribe request and gives a subscription id.
pub open spec fn established(state: State, frame: Frame) -> Option<(SessionId, HookView)> {
    match frame_request(state, frame) {
        Some(PendingView { kind: PendingKindView::Subscribe(session, unsubscribe), .. }) => match frame_result_id(
            frame,
        ) {
            Some(id) => Some((session, HookView { subscription: id, unsubscribe })),
            None => None,
        },
        _ => None,
    }
}

/// The hook that runs at once because the frame establishes a subscription
/// for a session that is gone.
pub open spec fn cancelled_hook(state: State, frame: Frame) -> Option<HookView> {
    match established(state, frame) {
        Some((session, hook)) => if state.sessions.contains_key(session.0) {
            None
        } else {
            Some(hook)
        },
        None => None,
    }
}

/// Whether `r` is what becomes of a frame that arrives in the given state.
pub open spec fn dispatches(state: State, frame: Frame, r: Dispatched) -> bool {
    match frame_subscription(frame) {
        Some(id) => r == Dispatched::Notification(notified(state, id, frame.text)),
        None => match frame_request(state, frame) {
            None => if frame_id(frame) is Some {
                r is UnknownRequest
            } else {
                r is Unexpected
            },
            Some(pending) => {
                &&& r matches Dispatched::Response { sink, frame: text, cancel }
                &&& sink == pending.sink
                &&& text == frame.text
                &&& match cancelled_hook(state, frame) {
                    Some(hook) => cancel matches Some(sent) && sent.write@ == hook_call(
                        hook,
                        state.id,
                    ),
                    None => cancel is None,
                }
            },
        },
    }
}

/// The state in which a subscription is registered for a session: the
/// session stands under the id of the subscription, and a live session has
/// the hook as its last.
pub open spec fn after_registration(state: State, session: SessionId, hook: HookView) -> State {
    State {
        subscriptions: state.subscriptions.insert(hook.subscription, session),
        sessions: if state.sessions.contains_key(session.0) {
            state.sessions.insert(session.0, state.sessions[session.0].push(hook))
        } else {
            state.sessions
        },
        ..state
    }
}

/// The state after a frame from upstream was handled.
pub open spec fn after_frame(state: State, frame: Frame) -> State {
    match frame_request(state, frame) {
        None => state,
        Some(pending) => {
            let answered = State {
                pending: state.pending.remove(frame_id(frame)->0),
                ..state
            };
            match established(state, frame) {
                None => answered,
                Some((session, hook)) => if state.sessions.contains_key(session.0) {
                    after_registration(answered, session, hook)
                } else {
                    after_hook(answered, hook)
                },
            }
        },
    }
}

/// A notification for a subscription that is not known is not forwarded
/// and changes nothing.
pub proof fn lemma_unknown_subscription(state: State, frame: Frame, id: SubscriptionIdView)
    requires
        frame_subscription(frame) == Some(id),
        !state.subscriptions.contains_key(id),
    ensures
        after_frame(state, frame) == state,
        notified(state, id, frame.text) == Notified::Unknown,
{
}

/// A notification for a subscription whose session is gone is not
/// forwarded, and the subscription stays registered.
pub proof fn lemma_session_gone(state: State, frame: Frame, id: SubscriptionIdView)
    requires
        frame_subscription(frame) == Some(id),
        state.subscriptions.contains_key(id),
        !state.sessions.contains_key(state.subscriptions[id].0),
    ensures
        after_frame(state, frame) == state,
        notified(state, id, frame.text) == Notified::SessionGone,
        after_frame(state, frame).subscriptions.contains_key(id),
{
}

/// The call of a hook names the subscription of the hook as its first parameter.
pub proof fn lemma_hook_call_names_subscription(hook: HookView, id: u64)
    ensures
        unsubscribe_id(hook_call(hook, id)) == Some(hook.subscription),
        hook_call(hook, id)->MethodCall_method == hook.unsubscribe.unsubscribe,
{
}

/// After a subscription was registered for a live session that had no
/// hook for it, the session has exactly one hook for it, so that dropping
/// the session unsubscribes from it exactly once, by a call whose first
/// parameter is the id of the subscription.
pub proof fn lemma_subscribe_then_close(state: State, session: SessionId, hook: HookView)
    requires
        state.sessions.contains_key(session.0),
        forall|i: int|
            0 <= i < state.sessions[session.0].len() ==> (#[trigger] state.sessions[session.0][i]).subscription
                != hook.subscription,
    ensures
        ({
            let hooks = after_registration(state, session, hook).sessions[session.0];
            &&& hooks.len() == state.sessions[session.0].len() + 1
            &&& hooks.last() == hook
            &&& forall|i: int|
                0 <= i < hooks.len() && (#[trigger] hooks[i]).subscription == hook.subscription
                    ==> i == hooks.len() - 1
            &&& forall|id: u64|
                unsubscribe_id(#[trigger] hook_call(hooks.last(), id)) == Some(hook.subscription)
        }),
{
    let hooks = after_registration(state, session, hook).sessions[session.0];
    assert forall|i: int|
        0 <= i < hooks.len() && (#[trigger] hooks[i]).subscription
            == hook.subscription implies i == hooks.len() - 1 by {
        if i < hooks.len() - 1 {
            assert(hooks[i] == state.sessions[session.0][i]);
        }
    }
}

} // verus!
