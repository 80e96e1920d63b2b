//! IPC Upstream Transport

use vstd::prelude::*;

pub mod config;

use crate::pubsub::SessionId;
use crate::rpc::Call;
use crate::text::text;
use crate::upstream::connection::{
    abandoned_by, after_frame, after_send, after_unsubscribe, dispatches, receiver_of, Connection,
    Dispatched,
    Frame, Sent, State, SubscribeError, FIRST_REQUEST_ID,
};
use crate::upstream::shared::PendingKindView;
use crate::upstream::Subscription;

verus! {

/// The path of the socket that the `count` first options give: that of the
/// last option, or the default where there is none.
pub open spec fn configured_path(params: Seq<config::Param>, count: nat) -> Seq<char> {
    if count == 0 || count > params.len() {
        "/var/tmp/parity.ipc"@
    } else {
        match params[count - 1] {
            config::Param::Path(path) => path@,
        }
    }
}

/// What handles the lines that arrive from upstream.
pub struct IpcHandler {
    connection: Connection,
}

impl IpcHandler {
    /// Whether the tables of the connection are consistent.
    pub closed spec fn wf(&self) -> bool {
        self.connection.wf()
    }

    /// The state of the connection.
    pub closed spec fn state(&self) -> State {
        self.connection.state()
    }

    /// Handles a line from upstream.
    pub fn process_message(&mut self, message: Frame) -> (r: Dispatched)
        requires
            old(self).wf(),
        ensures
            final(self).wf(),
            final(self).state() == after_frame(old(self).state(), message),
            dispatches(old(self).state(), message, r),
    {
        self.connection.process_frame(message)
    }
}

/// IPC transport: one connection to upstream over a Unix-domain socket,
/// one frame to the line.
pub struct IPC {
    path: String,
    handler: IpcHandler,
}

impl IPC {
    /// Whether the tables of the connection are consistent.
    pub closed spec fn wf(&self) -> bool {
        self.handler.connection.wf()
    }

    /// The path of the socket.
    pub closed spec fn spec_path(&self) -> Seq<char> {
        self.path@
    }

    /// The state of the connection.
    pub closed spec fn state(&self) -> State {
        self.handler.connection.state()
    }

    /// Create new IPC transport: the last path among the options counts,
    /// and without one the default path.
    pub fn new(params: Vec<config::Param>) -> (r: IPC)
        ensures
            r.wf(),
            r.spec_path() == configured_path(params@, params@.len()),
            r.state() == (State {
                id: FIRST_REQUEST_ID,
                next_sink: 0,
                pending: Map::empty(),
                subscriptions: Map::empty(),
                sessions: Map::empty(),
            }),
    {
        let mut params = params;
        let path = match params.pop() {
            Some(config::Param::Path(new_path)) => new_path,
            None => text("/var/tmp/parity.ipc"),
        };
        IPC { path, handler: IpcHandler { connection: Connection::new() } }
    }

    /// The path of the socket.
    pub fn path(&self) -> (r: &String)
        ensures
            r@ == self.spec_path(),
    {
        &self.path
    }

    /// The connection.
    pub fn connection(&mut self) -> (r: &mut Connection)
        requires
            old(self).wf(),
        ensures
            r.wf(),
            r.state() == old(self).state(),
            final(self).spec_path() == old(self).spec_path(),
            final(r).wf() ==> final(self).wf(),
            final(self).state() == final(r).state(),
    {
        &mut self.handler.connection
    }

    /// Handles a line from upstream.
    pub fn process_message(&mut self, message: Frame) -> (r: Dispatched)
        requires
            old(self).wf(),
        ensures
            final(self).wf(),
            final(self).spec_path() == old(self).spec_path(),
            final(self).state() == after_frame(old(self).state(), message),
            dispatches(old(self).state(), message, r),
    {
        self.handler.process_message(message)
    }

    /// Send a regular call upstream.
    pub fn send(&mut self, call: Call) -> (r: Sent)
        requires
            old(self).wf(),
        ensures
            final(self).wf(),
            final(self).spec_path() == old(self).spec_path(),
            final(self).state() == after_send(old(self).state(), call@, PendingKindView::Regular),
            r.write == call,
            r.receiver == receiver_of(old(self).state(), call@),
            r.abandoned == abandoned_by(old(self).state(), call@),
    {
        self.handler.connection.send(call)
    }

    /// Send subscribe call upstream.
    pub fn subscribe(&mut self, call: Call, session: Option<SessionId>, subscription: Subscription) -> (r:
        Result<Sent, SubscribeError>)
        requires
            old(self).wf(),
        ensures
            final(self).wf(),
            final(self).spec_path() == old(self).spec_path(),
            match session {
                None => r == Err::<Sent, SubscribeError>(SubscribeError::NoSession) && final(self).state() == old(self).state(),
                Some(session) => {
                    &&& r matches Ok(sent)
                    &&& sent.write == call
                    &&& sent.receiver == receiver_of(old(self).state(), call@)
                    &&& sent.abandoned == abandoned_by(old(self).state(), call@)
                    &&& final(self).state() == after_send(
                        old(self).state(),
                        call@,
                        PendingKindView::Subscribe(session, subscription@),
                    )
                },
            },
    {
        self.handler.connection.subscribe(call, session, subscription)
    }

    /// Send unsubscribe call upstream.
    pub fn unsubscribe(&mut self, call: Call, subscription: Subscription) -> (r: Sent)
        requires
            old(self).wf(),
        ensures
            final(self).wf(),
            final(self).spec_path() == old(self).spec_path(),
            final(self).state() == after_unsubscribe(old(self).state(), call@),
            r.write == call,
            r.receiver == receiver_of(old(self).state(), call@),
            r.abandoned == abandoned_by(old(self).state(), call@),
    {
        self.handler.connection.unsubscribe(call, subscription)
    }
}

} // verus!
