//! Shared pieces for building upstream transport: the table that matches
//! responses to requests and notifications to sessions.

use vstd::prelude::*;

use super::Subscription;
use crate::pubsub::{SessionId, SubscriptionId, SubscriptionIdView};
use crate::rpc::{Id, IdView};
use crate::table::{as_map, distinct, Key, Table};

verus! {

/// Pending request type
#[derive(Debug, Clone, PartialEq, Eq)]
pub enum PendingKind {
    /// Regular request (RPC -> MethodCall)
    Regular,
    /// Subscribe request (after it's successful we should create a subscription)
    Subscribe(SessionId, Subscription),
}

/// Pending request details: the sink that the response goes to, and the kind of the request.
#[derive(Debug, Clone, PartialEq, Eq)]
pub struct Pending {
    /// The handle of the one-shot sink that takes the response.
    pub sink: u64,
    /// The kind of the request.
    pub kind: PendingKind,
}

/// What a session does when it is dropped: it unsubscribes from one subscription.
#[derive(Debug, Clone, PartialEq, Eq)]
pub struct Hook {
    /// The id of the subscription.
    pub subscription: SubscriptionId,
    /// The description of the subscription, which names the unsubscribe method.
    pub unsubscribe: Subscription,
}

/// The mathematical content of a [`PendingKind`].
pub enum PendingKindView {
    Regular,
    Subscribe(SessionId, super::SubscriptionView),
}

/// The mathematical content of a [`Pending`].
pub struct PendingView {
    pub sink: u64,
    pub kind: PendingKindView,
}

/// The mathematical content of a [`Hook`].
pub struct HookView {
    pub subscription: SubscriptionIdView,
    pub unsubscribe: super::SubscriptionView,
}

impl View for PendingKind {
    type V = PendingKindView;

    open spec fn view(&self) -> PendingKindView {
        match self {
            PendingKind::Regular => PendingKindView::Regular,
            PendingKind::Subscribe(session, subscription) => PendingKindView::Subscribe(
                *session,
                subscription@,
            ),
        }
    }
}

impl View for Pending {
    type V = PendingView;

    open spec fn view(&self) -> PendingView {
        PendingView { sink: self.sink, kind: self.kind@ }
    }
}

impl View for Hook {
    type V = HookView;

    open spec fn view(&self) -> HookView {
        HookView { subscription: self.subscription@, unsubscribe: self.unsubscribe@ }
    }
}

/// The views of a list of hooks, in order.
pub open spec fn hooks_view(hooks: Seq<Hook>) -> Seq<HookView> {
    Seq::new(hooks.len(), |i: int| hooks[i]@)
}

/// The view of an optional pending request.
pub open spec fn optional_pending_view(pending: Option<Pending>) -> Option<PendingView> {
    match pending {
        Some(p) => Some(p@),
        None => None,
    }
}

/// What adding a pending request gave.
#[derive(Debug, Clone, Copy, PartialEq, Eq)]
pub struct Added {
    /// The handle on which the response will arrive; none for a request without id.
    pub receiver: Option<u64>,
    /// The sink of the request that was pending under the same id, which
    /// will never get a response now.
    pub abandoned: Option<u64>,
}

/// What became of a notification.
#[derive(Debug, Clone, PartialEq, Eq)]
pub enum Notified {
    /// No subscription has this id: the notification is dropped.
    Unknown,
    /// The session of the subscription is gone: the notification is dropped.
    SessionGone,
    /// The payload goes to the sink of this session.
    Deliver(SessionId, String),
}

/// The handle that follows `handle`.
pub open spec fn handle_after(handle: u64) -> u64 {
    if handle == u64::MAX {
        0
    } else {
        (handle + 1) as u64
    }
}

/// The sink of the request that is pending under an id, if there is one.
pub open spec fn sink_under(pending: Map<IdView, PendingView>, id: IdView) -> Option<u64> {
    if pending.contains_key(id) {
        Some(pending[id].sink)
    } else {
        None
    }
}

/// Shared subscription and pending requests manager.
pub struct Shared {
    pending: Table<Id, Pending>,
    subscriptions: Table<SubscriptionId, SessionId>,
    sessions: Table<SessionId, Vec<Hook>>,
    next_sink: u64,
}

impl Shared {
    /// Whether the tables are consistent.
    pub closed spec fn wf(&self) -> bool {
        &&& self.pending.wf()
        &&& self.subscriptions.wf()
        &&& self.sessions.wf()
    }

    /// The requests that await a response, by their id.
    pub closed spec fn pending(&self) -> Map<IdView, PendingView> {
        self.pending@.map_values(|p: Pending| p@)
    }

    /// The sessions of the subscriptions, by the id of the subscription.
    pub closed spec fn subscriptions(&self) -> Map<SubscriptionIdView, SessionId> {
        self.subscriptions@
    }

    /// The live sessions with their hooks, by the handle of the session.
    pub closed spec fn sessions(&self) -> Map<u64, Seq<HookView>> {
        self.sessions@.map_values(|hooks: Vec<Hook>| hooks_view(hooks@))
    }

    /// The handle that the next sink gets.
    pub closed spec fn next_sink(&self) -> u64 {
        self.next_sink
    }

    /// A manager without requests, subscriptions or sessions.
    pub fn new() -> (r: Shared)
        ensures
            r.wf(),
            r.pending() == Map::<IdView, PendingView>::empty(),
            r.subscriptions() == Map::<SubscriptionIdView, SessionId>::empty(),
            r.sessions() == Map::<u64, Seq<HookView>>::empty(),
            r.next_sink() == 0,
    {
        let r = Shared {
            pending: Table::new(),
            subscriptions: Table::new(),
            sessions: Table::new(),
            next_sink: 0,
        };
        assert(r.pending() =~= Map::<IdView, PendingView>::empty());
        assert(r.sessions() =~= Map::<u64, Seq<HookView>>::empty());
        r
    }

    /// Adds a new request to the list of pending requests
    ///
    /// We are awaiting the response for those requests. A request without
    /// id awaits none and changes nothing. A request that was pending under
    /// the same id is replaced.
    pub fn add_pending(&mut self, id: Option<&Id>, kind: PendingKind) -> (r: Added)
        requires
            old(self).wf(),
        ensures
            final(self).wf(),
            final(self).subscriptions() == old(self).subscriptions(),
            final(self).sessions() == old(self).sessions(),
            match id {
                None => {
                    &&& r.receiver is None
                    &&& r.abandoned is None
                    &&& final(self).pending() == old(self).pending()
                    &&& final(self).next_sink() == old(self).next_sink()
                },
                Some(id) => {
                    &&& r.receiver == Some(old(self).next_sink())
                    &&& r.abandoned == sink_under(old(self).pending(), id@)
                    &&& final(self).pending() == old(self).pending().insert(
                        id@,
                        PendingView { sink: old(self).next_sink(), kind: kind@ },
                    )
                    &&& final(self).next_sink() == handle_after(old(self).next_sink())
                },
            },
    {
        match id {
            None => Added { receiver: None, abandoned: None },
            Some(id) => {
                let sink = self.next_sink;
                self.next_sink = if sink == u64::MAX {
                    0
                } else {
                    sink + 1
                };
                let previous = self.pending.insert(id.duplicate(), Pending { sink, kind });
                let abandoned = match previous {
                    Some(p) => Some(p.sink),
                    None => None,
                };
                assert(self.pending() =~= old(self).pending().insert(
                    id@,
                    PendingView { sink, kind: kind@ },
                ));
                Added { receiver: Some(sink), abandoned }
            },
        }
    }

    /// Removes a requests from the list of pending requests.
    ///
    /// Most likely the response has been received so we can respond or add a subscription instead.
    pub fn remove_pending(&mut self, id: &Id) -> (r: Option<Pending>)
        requires
            old(self).wf(),
        ensures
            final(self).wf(),
            final(self).pending() == old(self).pending().remove(id@),
            final(self).subscriptions() == old(self).subscriptions(),
            final(self).sessions() == old(self).sessions(),
            final(self).next_sink() == old(self).next_sink(),
            optional_pending_view(r) == if old(self).pending().contains_key(id@) {
                Some(old(self).pending()[id@])
            } else {
                None
            },
    {
        let r = self.pending.remove(id);
        assert(self.pending() =~= old(self).pending().remove(id@));
        r
    }

    /// Add a new subscription id and it's correlation with the session.
    ///
    /// The session is registered under the id, and a live session gets the
    /// hook that unsubscribes when the session is dropped.
    pub fn add_subscription(&mut self, id: SubscriptionId, session: SessionId, unsubscribe:
        Subscription)
        requires
            old(self).wf(),
        ensures
            final(self).wf(),
            final(self).pending() == old(self).pending(),
            final(self).next_sink() == old(self).next_sink(),
            final(self).subscriptions() == old(self).subscriptions().insert(id@, session),
            final(self).sessions() == if old(self).sessions().contains_key(session.0) {
                old(self).sessions().insert(
                    session.0,
                    old(self).sessions()[session.0].push(
                        HookView { subscription: id@, unsubscribe: unsubscribe@ },
                    ),
                )
            } else {
                old(self).sessions()
            },
    {
        match self.sessions.remove(&session) {
            Some(hooks) => {
                let mut hooks = hooks;
                let ghost before = hooks@;
                hooks.push(Hook { subscription: id.duplicate(), unsubscribe });
                assert(hooks_view(hooks@) =~= hooks_view(before).push(
                    HookView { subscription: id@, unsubscribe: unsubscribe@ },
                ));
                self.sessions.insert(session, hooks);
                assert(self.sessions() =~= old(self).sessions().insert(
                    session.0,
                    old(self).sessions()[session.0].push(
                        HookView { subscription: id@, unsubscribe: unsubscribe@ },
                    ),
                ));
            },
            None => {
                assert(self.sessions@ =~= old(self).sessions@);
            },
        }
        self.subscriptions.insert(id, session);
    }

    /// Removes a subscription.
    pub fn remove_subscription(&mut self, id: &SubscriptionId)
        requires
            old(self).wf(),
        ensures
            final(self).wf(),
            final(self).pending() == old(self).pending(),
            final(self).next_sink() == old(self).next_sink(),
            final(self).sessions() == old(self).sessions(),
            final(self).subscriptions() == old(self).subscriptions().remove(id@),
    {
        self.subscriptions.remove(id);
    }

    /// Forwards a notification to given subscription.
    ///
    /// The table does not change, whatever becomes of the notification.
    pub fn notify_subscription(&self, id: &SubscriptionId, msg: String) -> (r: Notified)
        requires
            self.wf(),
        ensures
            r == if !self.subscriptions().contains_key(id@) {
                Notified::Unknown
            } else if !self.sessions().contains_key(self.subscriptions()[id@].0) {
                Notified::SessionGone
            } else {
                Notified::Deliver(self.subscriptions()[id@], msg)
            },
    {
        match self.subscriptions.get(id) {
            None => Notified::Unknown,
            Some(session) => {
                if self.sessions.contains_key(session) {
                    Notified::Deliver(*session, msg)
                } else {
                    Notified::SessionGone
                }
            },
        }
    }

    /// Whether a session is live.
    pub fn has_session(&self, session: SessionId) -> (r: bool)
        requires
            self.wf(),
        ensures
            r == self.sessions().contains_key(session.0),
    {
        self.sessions.contains_key(&session)
    }

    /// Makes a session live; one that is live already does not change.
    pub fn open_session(&mut self, session: SessionId) -> (opened: bool)
        requires
            old(self).wf(),
        ensures
            final(self).wf(),
            final(self).pending() == old(self).pending(),
            final(self).next_sink() == old(self).next_sink(),
            final(self).subscriptions() == old(self).subscriptions(),
            opened == !old(self).sessions().contains_key(session.0),
            final(self).sessions() == if opened {
                old(self).sessions().insert(session.0, Seq::empty())
            } else {
                old(self).sessions()
            },
    {
        if self.sessions.contains_key(&session) {
            false
        } else {
            let hooks: Vec<Hook> = Vec::new();
            assert(hooks_view(hooks@) =~= Seq::<HookView>::empty());
            self.sessions.insert(session, hooks);
            assert(self.sessions() =~= old(self).sessions().insert(session.0, Seq::empty()));
            true
        }
    }

    /// Drops a session and gives its hooks, in the order in which they were attached.
    pub fn close_session(&mut self, session: SessionId) -> (hooks: Vec<Hook>)
        requires
            old(self).wf(),
        ensures
            final(self).wf(),
            final(self).pending() == old(self).pending(),
            final(self).next_sink() == old(self).next_sink(),
            final(self).subscriptions() == old(self).subscriptions(),
            final(self).sessions() == old(self).sessions().remove(session.0),
            hooks_view(hooks@) == if old(self).sessions().contains_key(session.0) {
                old(self).sessions()[session.0]
            } else {
                Seq::empty()
            },
    {
        let r = match self.sessions.remove(&session) {
            Some(hooks) => hooks,
            None => Vec::new(),
        };
        assert(self.sessions() =~= old(self).sessions().remove(session.0));
        assert(!old(self).sessions().contains_key(session.0) ==> hooks_view(r@)
            =~= Seq::<HookView>::empty());
        r
    }

    /// Abandons every pending request, as when the connection is torn
    /// down, and gives the requests that were pending.
    pub fn abandon_pending(&mut self) -> (r: Vec<(Id, Pending)>)
        requires
            old(self).wf(),
        ensures
            final(self).wf(),
            final(self).pending() == Map::<IdView, PendingView>::empty(),
            final(self).next_sink() == old(self).next_sink(),
            final(self).subscriptions() == old(self).subscriptions(),
            final(self).sessions() == old(self).sessions(),
            distinct(r@),
            as_map(r@).map_values(|p: Pending| p@) == old(self).pending(),
    {
        let r = self.pending.take_all();
        assert(self.pending() =~= Map::<IdView, PendingView>::empty());
        r
    }
}

/// Removing a subscription is idempotent: to remove it again changes nothing.
pub proof fn lemma_remove_subscription_idempotent(
    subscriptions: Map<SubscriptionIdView, SessionId>,
    id: SubscriptionIdView,
)
    ensures
        subscriptions.remove(id).remove(id) == subscriptions.remove(id),
{
    assert(subscriptions.remove(id).remove(id) =~= subscriptions.remove(id));
}

} // verus!
